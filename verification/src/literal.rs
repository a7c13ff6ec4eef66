use vstd::prelude::*;
use crate::shape::BaseTypeShape;
use crate::scalar::{F32Bits, F64Bits};
use crate::value::{ConstBaseVal, BaseValView, SvmView};
use crate::param::ParameterBaseType;
use crate::types::{spec_surface_name, surface_name};
use crate::ast::{Expr, ExprView, FunIdentifier, FunIdentifierView, spec_view_expr,
    spec_view_expr_list, lemma_view_expr_list};
use crate::composite::{ConstVal, ValView};

verus! {

broadcast use {vstd::std_specs::vec::group_vec_axioms, vstd::seq::group_seq_axioms};

/// The scalar literal node for one element of a basic value.
pub open spec fn spec_elem_literal(v: BaseValView, i: int) -> ExprView {
    match v {
        BaseValView::Bool(s) => ExprView::BoolConst(s.elems[i]),
        BaseValView::Int(s) => ExprView::IntConst(s.elems[i]),
        BaseValView::UInt(s) => ExprView::UIntConst(s.elems[i]),
        BaseValView::Float(s) => ExprView::FloatConst(s.elems[i]),
        BaseValView::Double(s) => ExprView::DoubleConst(s.elems[i]),
    }
}

/// The canonical literal form of a basic value: a scalar becomes the
/// matching literal node, and every other shape becomes a call of
/// its surface-syntax constructor on the element literals in
/// column-major order.
pub open spec fn spec_as_expr(v: BaseValView) -> ExprView {
    if v.spec_shape().spec_is_scalar() {
        spec_elem_literal(v, 0)
    } else {
        ExprView::FunCall(
            FunIdentifierView::Identifier(
                spec_surface_name(ParameterBaseType::spec_from_const_val(v), v.spec_shape()),
            ),
            Seq::new(v.spec_shape().spec_width(), |i: int| spec_elem_literal(v, i)),
        )
    }
}

impl ConstBaseVal {
    /// Rewrites this constant as the canonical literal expression.
    pub fn as_expr(&self) -> (r: Expr)
        requires
            self@.wf(),
        ensures
            r@ == spec_as_expr(self@),
    {
        let shape = self.get_shape();
        if shape.is_scalar() {
            match self {
                ConstBaseVal::Bool(s) => Expr::BoolConst(s.elems[0]),
                ConstBaseVal::Int(s) => Expr::IntConst(s.elems[0]),
                ConstBaseVal::UInt(s) => Expr::UIntConst(s.elems[0]),
                ConstBaseVal::Float(s) => Expr::FloatConst(s.elems[0]),
                ConstBaseVal::Double(s) => Expr::DoubleConst(s.elems[0]),
            }
        } else {
            let n = shape.width();
            let mut args: Vec<Expr> = Vec::new();
            let mut i: usize = 0;
            while i < n
                invariant
                    self@.wf(),
                    shape == self@.spec_shape(),
                    n == shape.spec_width(),
                    0 <= i <= n,
                    args@.len() == i as int,
                    forall|j: int|
                        0 <= j < i as int ==> spec_view_expr(#[trigger] args@[j])
                            == spec_elem_literal(self@, j),
                decreases n - i,
            {
                let lit = match self {
                    ConstBaseVal::Bool(s) => Expr::BoolConst(s.elems[i]),
                    ConstBaseVal::Int(s) => Expr::IntConst(s.elems[i]),
                    ConstBaseVal::UInt(s) => Expr::UIntConst(s.elems[i]),
                    ConstBaseVal::Float(s) => Expr::FloatConst(s.elems[i]),
                    ConstBaseVal::Double(s) => Expr::DoubleConst(s.elems[i]),
                };
                args.push(lit);
                i += 1;
            }
            proof {
                lemma_view_expr_list(args@);
                assert(spec_view_expr_list(args@) =~= Seq::new(
                    self@.spec_shape().spec_width(),
                    |j: int| spec_elem_literal(self@, j),
                ));
            }
            let name = surface_name(ParameterBaseType::from_const_val(self), shape);
            let fi = FunIdentifier::Identifier(name);
            proof {
                reveal_with_fuel(crate::ast::spec_view_expr, 2);
                reveal_with_fuel(crate::ast::spec_view_fun_ident, 2);
                assert(crate::ast::spec_view_fun_ident(fi) == FunIdentifierView::Identifier(
                    spec_surface_name(
                        ParameterBaseType::spec_from_const_val(self@),
                        self@.spec_shape(),
                    ),
                ));
            }
            Expr::FunCall(fi, args)
        }
    }
}

impl ConstVal {
    /// The canonical literal expression of a constant, where it has
    /// one: arrays and records have no literal form in the language
    /// and are never emitted by the propagator.
    pub fn as_expr(&self) -> (r: Option<Expr>)
        requires
            self@.wf(),
        ensures
            match r {
                Some(e) => self@ is Base && e@ == spec_as_expr(self@->Base_0),
                None => !(self@ is Base),
            },
    {
        match self {
            ConstVal::Base(b) => Some(b.as_expr()),
            _ => None,
        }
    }
}

} // verus!
