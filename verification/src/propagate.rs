use vstd::prelude::*;
use crate::shape::BaseTypeShape;
use crate::value::{ConstBaseVal, BaseValView, SvmView};
use crate::param::ParameterBaseType;
use crate::types::{TypeSpecifier, TypeSpecView};
use crate::ast::{Expr, ExprView, UnaryOp, BinaryOp, AssignmentOp, FunIdentifier,
    FunIdentifierView, clone_expr, clone_fun_ident, spec_view_expr, spec_view_expr_list,
    lemma_view_expr_list};
use crate::composite::{ConstVal, ValView, spec_entries_lookup, clone_const_val,
    lemma_entries_lookup_wf};
use crate::dispatch::{ConstEvalFunction, InstanceView, spec_eval_function, lemma_eval_function_wf,
    spec_params_wf};
use crate::builtin::{OperatorTables, OperatorTablesView, spec_views_of};
use crate::literal::spec_as_expr;
use crate::ops::copy_base_val;

verus! {

broadcast use {vstd::std_specs::vec::group_vec_axioms, vstd::seq::group_seq_axioms};

/// Allows lookup of constant values by name. An implementation's
/// well-formedness means that every value it hands out is well
/// formed.
pub trait ConstLookup {
    spec fn spec_wf(&self) -> bool;

    spec fn spec_lookup_const(&self, name: Seq<char>) -> Option<ValView>;

    fn lookup_const(&self, ident: &String) -> (r: Option<&ConstVal>)
        ensures
            match r {
                Some(v) => self.spec_lookup_const(ident@) == Some(v@) && (self.spec_wf()
                    ==> v@.wf()),
                None => self.spec_lookup_const(ident@) is None,
            },
    ;

    fn is_const(&self, ident: &String) -> (r: bool)
        ensures
            r == (self.spec_lookup_const(ident@) is Some),
    {
        match self.lookup_const(ident) {
            Some(_) => true,
            None => false,
        }
    }
}

/// Allows lookup of constant-evaluable functions by name.
pub trait ConstEvalFunctionLookup {
    spec fn spec_lookup_fn(&self, name: Seq<char>) -> Option<Seq<InstanceView>>;

    fn lookup(&self, ident: &String) -> (r: Option<&ConstEvalFunction>)
        ensures
            match r {
                Some(f) => self.spec_lookup_fn(ident@) == Some(f@),
                None => self.spec_lookup_fn(ident@) is None,
            },
    ;
}

/// The outcome of propagation over one expression: a fully constant
/// value, or a residual expression whose constant sub-expressions
/// are already reduced.
#[derive(Debug)]
pub enum ConstValOrExpr {
    Const(ConstVal),
    Expr(Expr),
}

pub ghost enum VoeView {
    Const(ValView),
    Expr(ExprView),
}

impl View for ConstValOrExpr {
    type V = VoeView;

    open spec fn view(&self) -> VoeView {
        match self {
            ConstValOrExpr::Const(v) => VoeView::Const(v@),
            ConstValOrExpr::Expr(e) => VoeView::Expr(e@),
        }
    }
}

/// The errors constant folding can raise; each carries the operator
/// or surface type that identifies the failing node.
#[derive(Debug)]
pub enum ConstEvalError {
    UnaryOpExpectedLValue(UnaryOp),
    UnknownStructureMember(String),
    DotStructureRequired,
    TernaryExpectedScalarBool,
    AssignmentExpectedLValue,
    PostOpExpectedLValue,
    UnknownIdentifier(String),
    IllegalExpression,
    IllegalUnaryOp(UnaryOp),
    IllegalUnaryOperand(UnaryOp, TypeSpecifier),
    IllegalBinaryOp(BinaryOp),
    IllegalBinaryOperand(BinaryOp, TypeSpecifier, TypeSpecifier),
    NoMatchingFunctionOverload,
}

pub ghost enum ErrorView {
    UnaryOpExpectedLValue(UnaryOp),
    UnknownStructureMember(Seq<char>),
    DotStructureRequired,
    TernaryExpectedScalarBool,
    AssignmentExpectedLValue,
    PostOpExpectedLValue,
    UnknownIdentifier(Seq<char>),
    IllegalExpression,
    IllegalUnaryOp(UnaryOp),
    IllegalUnaryOperand(UnaryOp, TypeSpecView),
    IllegalBinaryOp(BinaryOp),
    IllegalBinaryOperand(BinaryOp, TypeSpecView, TypeSpecView),
    NoMatchingFunctionOverload,
}

impl View for ConstEvalError {
    type V = ErrorView;

    open spec fn view(&self) -> ErrorView {
        match self {
            ConstEvalError::UnaryOpExpectedLValue(op) => ErrorView::UnaryOpExpectedLValue(*op),
            ConstEvalError::UnknownStructureMember(n) => ErrorView::UnknownStructureMember(n@),
            ConstEvalError::DotStructureRequired => ErrorView::DotStructureRequired,
            ConstEvalError::TernaryExpectedScalarBool => ErrorView::TernaryExpectedScalarBool,
            ConstEvalError::AssignmentExpectedLValue => ErrorView::AssignmentExpectedLValue,
            ConstEvalError::PostOpExpectedLValue => ErrorView::PostOpExpectedLValue,
            ConstEvalError::UnknownIdentifier(n) => ErrorView::UnknownIdentifier(n@),
            ConstEvalError::IllegalExpression => ErrorView::IllegalExpression,
            ConstEvalError::IllegalUnaryOp(op) => ErrorView::IllegalUnaryOp(*op),
            ConstEvalError::IllegalUnaryOperand(op, t) => ErrorView::IllegalUnaryOperand(*op, t@),
            ConstEvalError::IllegalBinaryOp(op) => ErrorView::IllegalBinaryOp(*op),
            ConstEvalError::IllegalBinaryOperand(op, t1, t2) => ErrorView::IllegalBinaryOperand(
                *op,
                t1@,
                t2@,
            ),
            ConstEvalError::NoMatchingFunctionOverload => ErrorView::NoMatchingFunctionOverload,
        }
    }
}

pub open spec fn spec_res_view(r: Result<ConstValOrExpr, ConstEvalError>) -> Result<
    VoeView,
    ErrorView,
> {
    match r {
        Ok(v) => Ok(v@),
        Err(e) => Err(e@),
    }
}

/// The operator table the propagator consults for a unary operator;
/// increment and decrement have none, they demand storage.
pub open spec fn spec_unary_table(ot: OperatorTablesView, op: UnaryOp) -> Seq<InstanceView> {
    match op {
        UnaryOp::Add => ot.unary_add,
        UnaryOp::Minus => ot.unary_minus,
        UnaryOp::Not => ot.unary_not,
        UnaryOp::Complement => ot.unary_complement,
        _ => Seq::empty(),
    }
}

/// The operator table of a binary operator; inequality reuses the
/// equality table.
pub open spec fn spec_binary_table(ot: OperatorTablesView, op: BinaryOp) -> Seq<InstanceView> {
    match op {
        BinaryOp::Or => ot.binary_or,
        BinaryOp::Xor => ot.binary_xor,
        BinaryOp::And => ot.binary_and,
        BinaryOp::BitOr => ot.binary_bit_or,
        BinaryOp::BitXor => ot.binary_bit_xor,
        BinaryOp::BitAnd => ot.binary_bit_and,
        BinaryOp::Equal => ot.binary_equal,
        BinaryOp::NonEqual => ot.binary_equal,
        BinaryOp::LT => ot.binary_lt,
        BinaryOp::GT => ot.binary_gt,
        BinaryOp::LTE => ot.binary_lte,
        BinaryOp::GTE => ot.binary_gte,
        BinaryOp::LShift => ot.binary_lshift,
        BinaryOp::RShift => ot.binary_rshift,
        BinaryOp::Add => ot.binary_add,
        BinaryOp::Sub => ot.binary_sub,
        BinaryOp::Mult => ot.binary_mult,
        BinaryOp::Div => ot.binary_div,
        BinaryOp::Mod => ot.binary_mod,
    }
}

/// The expression a propagation outcome contributes to a rebuilt
/// parent: a residual expression stands as it is, a constant basic
/// value becomes its canonical literal, and a constant array or
/// record, which has no literal form, leaves the original
/// sub-expression in place.
pub open spec fn spec_voe_to_expr(r: VoeView, original: ExprView) -> ExprView {
    match r {
        VoeView::Expr(e) => e,
        VoeView::Const(v) => match v {
            ValView::Base(b) => spec_as_expr(b),
            _ => original,
        },
    }
}

pub open spec fn spec_bool_base(b: bool) -> BaseValView {
    BaseValView::Bool(SvmView { shape: BaseTypeShape::Scalar, elems: seq![b] })
}

/// Constant propagation over one expression: the mathematical
/// definition the executable propagator is proved against. Given
/// the same expression, lookups and tables it is one value, which
/// is the purity of the propagator.
pub open spec fn spec_propagate<CL: ConstLookup, FL: ConstEvalFunctionLookup>(
    e: ExprView,
    cl: CL,
    fl: FL,
    ot: OperatorTablesView,
) -> Result<VoeView, ErrorView>
    decreases e,
{
    match e {
        ExprView::Variable(name) => Ok(
            match cl.spec_lookup_const(name) {
                Some(v) => VoeView::Const(v),
                None => VoeView::Expr(ExprView::Variable(name)),
            },
        ),
        ExprView::IntConst(v) => Ok(
            VoeView::Const(
                ValView::Base(
                    BaseValView::Int(SvmView { shape: BaseTypeShape::Scalar, elems: seq![v] }),
                ),
            ),
        ),
        ExprView::UIntConst(v) => Ok(
            VoeView::Const(
                ValView::Base(
                    BaseValView::UInt(SvmView { shape: BaseTypeShape::Scalar, elems: seq![v] }),
                ),
            ),
        ),
        ExprView::BoolConst(v) => Ok(
            VoeView::Const(
                ValView::Base(
                    BaseValView::Bool(SvmView { shape: BaseTypeShape::Scalar, elems: seq![v] }),
                ),
            ),
        ),
        ExprView::FloatConst(v) => Ok(
            VoeView::Const(
                ValView::Base(
                    BaseValView::Float(SvmView { shape: BaseTypeShape::Scalar, elems: seq![v] }),
                ),
            ),
        ),
        ExprView::DoubleConst(v) => Ok(
            VoeView::Const(
                ValView::Base(
                    BaseValView::Double(SvmView { shape: BaseTypeShape::Scalar, elems: seq![v] }),
                ),
            ),
        ),
        ExprView::Unary(op, a) => match spec_propagate(*a, cl, fl, ot) {
            Err(err) => Err(err),
            Ok(VoeView::Expr(ea)) => Ok(VoeView::Expr(ExprView::Unary(op, Box::new(ea)))),
            Ok(VoeView::Const(v)) => spec_unary_fold(op, v, ot),
        },
        ExprView::Binary(op, a, b) => match spec_propagate(*a, cl, fl, ot) {
            Err(err) => Err(err),
            Ok(ra) => match spec_propagate(*b, cl, fl, ot) {
                Err(err) => Err(err),
                Ok(rb) => {
                    if ra is Const && rb is Const {
                        spec_binary_fold(op, ra->Const_0, rb->Const_0, ot)
                    } else {
                        Ok(
                            VoeView::Expr(
                                ExprView::Binary(
                                    op,
                                    Box::new(spec_voe_to_expr(ra, *a)),
                                    Box::new(spec_voe_to_expr(rb, *b)),
                                ),
                            ),
                        )
                    }
                },
            },
        },
        ExprView::Ternary(a, b, c) => match spec_propagate(*a, cl, fl, ot) {
            Err(err) => Err(err),
            Ok(VoeView::Const(v)) => match v.spec_ternary_condition() {
                Some(cond) => if cond {
                    spec_propagate(*b, cl, fl, ot)
                } else {
                    spec_propagate(*c, cl, fl, ot)
                },
                None => Err(ErrorView::TernaryExpectedScalarBool),
            },
            Ok(VoeView::Expr(ea)) => match spec_propagate(*b, cl, fl, ot) {
                Err(err) => Err(err),
                Ok(rb) => match spec_propagate(*c, cl, fl, ot) {
                    Err(err) => Err(err),
                    Ok(rc) => Ok(
                        VoeView::Expr(
                            ExprView::Ternary(
                                Box::new(ea),
                                Box::new(spec_voe_to_expr(rb, *b)),
                                Box::new(spec_voe_to_expr(rc, *c)),
                            ),
                        ),
                    ),
                },
            },
        },
        ExprView::Assignment(a, op, b) => match spec_propagate(*a, cl, fl, ot) {
            Err(err) => Err(err),
            Ok(VoeView::Const(_)) => Err(ErrorView::AssignmentExpectedLValue),
            Ok(VoeView::Expr(ea)) => match spec_propagate(*b, cl, fl, ot) {
                Err(err) => Err(err),
                Ok(rb) => Ok(
                    VoeView::Expr(
                        ExprView::Assignment(
                            Box::new(ea),
                            op,
                            Box::new(spec_voe_to_expr(rb, *b)),
                        ),
                    ),
                ),
            },
        },
        ExprView::Bracket(_, _) => Err(ErrorView::IllegalExpression),
        ExprView::FunCall(fi, args) => match spec_propagate_args(args, cl, fl, ot) {
            Err(err) => Err(err),
            Ok(rs) => {
                if (forall|i: int| 0 <= i < rs.len() ==> (#[trigger] rs[i]) is Const && rs[i]->Const_0 is Base)
                    && fi is Identifier {
                    let vals = Seq::new(rs.len(), |i: int| rs[i]->Const_0->Base_0);
                    match fl.spec_lookup_fn(fi->Identifier_0) {
                        Some(fview) => match spec_eval_function(fview, vals) {
                            Some(r) => Ok(VoeView::Const(ValView::Base(r))),
                            None => Err(ErrorView::NoMatchingFunctionOverload),
                        },
                        None => Ok(
                            VoeView::Expr(
                                ExprView::FunCall(fi, spec_rebuilt_args(rs, args)),
                            ),
                        ),
                    }
                } else {
                    Ok(VoeView::Expr(ExprView::FunCall(fi, spec_rebuilt_args(rs, args))))
                }
            },
        },
        ExprView::Dot(a, name) => match spec_propagate(*a, cl, fl, ot) {
            Err(err) => Err(err),
            Ok(VoeView::Expr(ea)) => Ok(VoeView::Expr(ExprView::Dot(Box::new(ea), name))),
            Ok(VoeView::Const(v)) => spec_dot_fold(v, name),
        },
        ExprView::PostInc(a) => match spec_propagate(*a, cl, fl, ot) {
            Err(err) => Err(err),
            Ok(VoeView::Const(_)) => Err(ErrorView::PostOpExpectedLValue),
            Ok(VoeView::Expr(ea)) => Ok(VoeView::Expr(ExprView::PostInc(Box::new(ea)))),
        },
        ExprView::PostDec(a) => match spec_propagate(*a, cl, fl, ot) {
            Err(err) => Err(err),
            Ok(VoeView::Const(_)) => Err(ErrorView::PostOpExpectedLValue),
            Ok(VoeView::Expr(ea)) => Ok(VoeView::Expr(ExprView::PostDec(Box::new(ea)))),
        },
        ExprView::Comma(a, b) => match spec_propagate(*a, cl, fl, ot) {
            Err(err) => Err(err),
            Ok(ra) => match spec_propagate(*b, cl, fl, ot) {
                Err(err) => Err(err),
                Ok(rb) => Ok(
                    VoeView::Expr(
                        ExprView::Comma(
                            Box::new(spec_voe_to_expr(ra, *a)),
                            Box::new(spec_voe_to_expr(rb, *b)),
                        ),
                    ),
                ),
            },
        },
    }
}

/// Propagation over an argument list, left to right; the first
/// error aborts the whole call.
pub open spec fn spec_propagate_args<CL: ConstLookup, FL: ConstEvalFunctionLookup>(
    args: Seq<ExprView>,
    cl: CL,
    fl: FL,
    ot: OperatorTablesView,
) -> Result<Seq<VoeView>, ErrorView>
    decreases args,
{
    if args.len() == 0 {
        Ok(Seq::empty())
    } else {
        match spec_propagate(args.first(), cl, fl, ot) {
            Err(err) => Err(err),
            Ok(r) => match spec_propagate_args(args.drop_first(), cl, fl, ot) {
                Err(err) => Err(err),
                Ok(rest) => Ok(seq![r] + rest),
            },
        }
    }
}

/// The rebuilt argument expressions of a call that is not folded.
pub open spec fn spec_rebuilt_args(rs: Seq<VoeView>, args: Seq<ExprView>) -> Seq<ExprView>
    recommends
        rs.len() == args.len(),
{
    Seq::new(rs.len(), |i: int| spec_voe_to_expr(rs[i], args[i]))
}

impl ValView {
    /// The boolean a ternary condition selects on: a constant
    /// scalar boolean basic value, and nothing else.
    pub open spec fn spec_ternary_condition(self) -> Option<bool> {
        match self {
            ValView::Base(b) => b.spec_as_scalar_bool(),
            _ => None,
        }
    }
}

/// Folding a unary operator over a constant operand: increment and
/// decrement demand storage, composites have no unary operators,
/// and everything else goes through the operator's overload table.
pub open spec fn spec_unary_fold(op: UnaryOp, v: ValView, ot: OperatorTablesView) -> Result<
    VoeView,
    ErrorView,
> {
    match v {
        ValView::Base(b) => match op {
            UnaryOp::Inc => Err(ErrorView::UnaryOpExpectedLValue(UnaryOp::Inc)),
            UnaryOp::Dec => Err(ErrorView::UnaryOpExpectedLValue(UnaryOp::Dec)),
            _ => match spec_eval_function(spec_unary_table(ot, op), seq![b]) {
                Some(r) => Ok(VoeView::Const(ValView::Base(r))),
                None => Err(ErrorView::IllegalUnaryOperand(op, v.spec_type_specifier())),
            },
        },
        _ => Err(ErrorView::IllegalUnaryOperand(op, v.spec_type_specifier())),
    }
}

/// Whether a basic value is of one of the two integer families.
pub open spec fn spec_is_integer(v: BaseValView) -> bool {
    v is Int || v is UInt
}

/// Whether an integer value carries a zero element.
pub open spec fn spec_has_zero(v: BaseValView) -> bool {
    match v {
        BaseValView::Int(s) => exists|i: int| 0 <= i < s.elems.len() && s.elems[i] == 0,
        BaseValView::UInt(s) => exists|i: int| 0 <= i < s.elems.len() && s.elems[i] == 0,
        _ => false,
    }
}

/// Folding a binary operator over two constant operands: both must
/// be basic values; inequality is the negation of equality; the
/// rest goes through the operator's overload table. One guard
/// stands before the table: an all-integer division whose divisor
/// carries a zero is refused outright, since the integer overloads
/// are absent on it and re-dispatching it to the floating point
/// overloads would change the folded expression's type, which
/// propagation must never do.
pub open spec fn spec_binary_fold(
    op: BinaryOp,
    va: ValView,
    vb: ValView,
    ot: OperatorTablesView,
) -> Result<VoeView, ErrorView> {
    if !(va is Base) || !(vb is Base) {
        Err(
            ErrorView::IllegalBinaryOperand(
                op,
                va.spec_type_specifier(),
                vb.spec_type_specifier(),
            ),
        )
    } else {
        let ba = va->Base_0;
        let bb = vb->Base_0;
        if op is Div && spec_is_integer(ba) && spec_is_integer(bb) && spec_has_zero(bb) {
            Err(
                ErrorView::IllegalBinaryOperand(
                    op,
                    va.spec_type_specifier(),
                    vb.spec_type_specifier(),
                ),
            )
        } else if op is NonEqual {
            match spec_eval_function(spec_binary_table(ot, op), seq![ba, bb]) {
                Some(r) => match r.spec_as_scalar_bool() {
                    Some(bv) => Ok(VoeView::Const(ValView::Base(spec_bool_base(!bv)))),
                    None => Err(
                        ErrorView::IllegalBinaryOperand(
                            op,
                            va.spec_type_specifier(),
                            vb.spec_type_specifier(),
                        ),
                    ),
                },
                None => Err(
                    ErrorView::IllegalBinaryOperand(
                        op,
                        va.spec_type_specifier(),
                        vb.spec_type_specifier(),
                    ),
                ),
            }
        } else {
            match spec_eval_function(spec_binary_table(ot, op), seq![ba, bb]) {
                Some(r) => Ok(VoeView::Const(ValView::Base(r))),
                None => Err(
                    ErrorView::IllegalBinaryOperand(
                        op,
                        va.spec_type_specifier(),
                        vb.spec_type_specifier(),
                    ),
                ),
            }
        }
    }
}

/// Folding a field selection over a constant: only records have
/// fields; constant array member access is not supported.
pub open spec fn spec_dot_fold(v: ValView, name: Seq<char>) -> Result<VoeView, ErrorView> {
    match v {
        ValView::Struct(st) => match spec_entries_lookup(st.entries, name) {
            Some(field) => Ok(VoeView::Const(field)),
            None => Err(ErrorView::UnknownStructureMember(name)),
        },
        ValView::Array(_) => Err(ErrorView::IllegalExpression),
        _ => Err(ErrorView::DotStructureRequired),
    }
}

pub open spec fn spec_voe_views(s: Seq<ConstValOrExpr>) -> Seq<VoeView> {
    Seq::new(s.len(), |i: int| s[i]@)
}

/// Every constant among a list of propagation outcomes is well
/// formed.
pub open spec fn spec_voes_wf(s: Seq<VoeView>) -> bool {
    forall|i: int|
        0 <= i < s.len() ==> match #[trigger] s[i] {
            VoeView::Const(v) => v.wf(),
            VoeView::Expr(_) => true,
        }
}

/// The argument propagation of a prefix grows one argument at a
/// time.
proof fn lemma_propagate_args_take<CL: ConstLookup, FL: ConstEvalFunctionLookup>(
    s: Seq<ExprView>,
    n: int,
    cl: CL,
    fl: FL,
    ot: OperatorTablesView,
)
    requires
        0 <= n < s.len(),
    ensures
        spec_propagate_args(s.take(n + 1), cl, fl, ot) == (match spec_propagate_args(
            s.take(n),
            cl,
            fl,
            ot,
        ) {
            Err(err) => Err(err),
            Ok(rs) => match spec_propagate(s[n], cl, fl, ot) {
                Err(err) => Err(err),
                Ok(r) => Ok(rs.push(r)),
            },
        }),
    decreases n,
{
    if n == 0 {
        assert(s.take(1).first() == s[0]);
        assert(s.take(1).drop_first() =~= Seq::<ExprView>::empty());
        assert(s.take(0) =~= Seq::<ExprView>::empty());
        if spec_propagate(s[0], cl, fl, ot) is Ok {
            let r = spec_propagate(s[0], cl, fl, ot)->Ok_0;
            assert(seq![r] + Seq::<VoeView>::empty() =~= Seq::<VoeView>::empty().push(r));
        }
    } else {
        let t = s.drop_first();
        assert(s.take(n + 1).first() == s[0]);
        assert(s.take(n + 1).drop_first() =~= t.take(n));
        assert(s.take(n).first() == s[0]);
        assert(s.take(n).drop_first() =~= t.take(n - 1));
        assert(t[n - 1] == s[n]);
        lemma_propagate_args_take(t, n - 1, cl, fl, ot);
        if spec_propagate(s[0], cl, fl, ot) is Ok && spec_propagate_args(t.take(n - 1), cl, fl, ot)
            is Ok && spec_propagate(s[n], cl, fl, ot) is Ok {
            let r0 = spec_propagate(s[0], cl, fl, ot)->Ok_0;
            let rest = spec_propagate_args(t.take(n - 1), cl, fl, ot)->Ok_0;
            let rn = spec_propagate(s[n], cl, fl, ot)->Ok_0;
            assert(seq![r0] + rest.push(rn) =~= (seq![r0] + rest).push(rn));
        }
    }
}

/// Converts a propagation outcome back to an expression when a
/// parent node is rebuilt.
fn voe_to_expr(r: &ConstValOrExpr, original: &Expr) -> (e: Expr)
    requires
        match r@ {
            VoeView::Const(v) => v.wf(),
            VoeView::Expr(_) => true,
        },
    ensures
        e@ == spec_voe_to_expr(r@, original@),
{
    match r {
        ConstValOrExpr::Expr(e) => clone_expr(e),
        ConstValOrExpr::Const(v) => match v {
            ConstVal::Base(b) => b.as_expr(),
            _ => clone_expr(original),
        },
    }
}

/// Propagates every argument of a call, left to right.
#[verifier::rlimit(100)]
fn propagate_call_args<CL: ConstLookup, FL: ConstEvalFunctionLookup>(
    args: &Vec<Expr>,
    cl: &CL,
    fl: &FL,
    ops: &OperatorTables,
) -> (r: Result<Vec<ConstValOrExpr>, ConstEvalError>)
    requires
        cl.spec_wf(),
    ensures
        match r {
            Ok(vs) => spec_propagate_args(spec_view_expr_list(args@), *cl, *fl, ops@)
                == Ok::<Seq<VoeView>, ErrorView>(spec_voe_views(vs@)) && spec_voes_wf(
                spec_voe_views(vs@),
            ) && vs@.len() == args@.len(),
            Err(err) => spec_propagate_args(spec_view_expr_list(args@), *cl, *fl, ops@)
                == Err::<Seq<VoeView>, ErrorView>(err@),
        },
    decreases args@,
{
    let ghost views = spec_view_expr_list(args@);
    proof {
        lemma_view_expr_list(args@);
        assert(views.take(0) =~= Seq::<ExprView>::empty());
    }
    let mut out: Vec<ConstValOrExpr> = Vec::new();
    proof {
        assert(spec_voe_views(out@) =~= Seq::<VoeView>::empty());
    }
    let mut i: usize = 0;
    while i < args.len()
        invariant
            cl.spec_wf(),
            views == spec_view_expr_list(args@),
            views.len() == args@.len(),
            forall|j: int|
                0 <= j < args@.len() ==> views[j] == spec_view_expr(args@[j]),
            0 <= i <= args@.len(),
            out@.len() == i as int,
            spec_propagate_args(views.take(i as int), *cl, *fl, ops@) == Ok::<
                Seq<VoeView>,
                ErrorView,
            >(spec_voe_views(out@)),
            spec_voes_wf(spec_voe_views(out@)),
        decreases args@.len() - i,
    {
        proof {
            lemma_propagate_args_take(views, i as int, *cl, *fl, ops@);
        }
        match const_propagate_expr(&args[i], cl, fl, ops) {
            Ok(v) => {
                let ghost prev = spec_voe_views(out@);
                let ghost vv = v@;
                out.push(v);
                proof {
                    assert(spec_voe_views(out@) =~= prev.push(vv));
                    assert forall|j: int|
                        0 <= j < spec_voe_views(out@).len() implies match #[trigger] spec_voe_views(
                        out@,
                    )[j] {
                        VoeView::Const(cv) => cv.wf(),
                        VoeView::Expr(_) => true,
                    } by {
                        if j < prev.len() {
                            assert(spec_voe_views(out@)[j] == prev[j]);
                        }
                    }
                }
            },
            Err(err) => {
                proof {
                    lemma_propagate_args_err_prefix(views, i as int + 1, *cl, *fl, ops@);
                }
                return Err(err);
            },
        }
        i += 1;
    }
    proof {
        assert(views.take(args@.len() as int) =~= views);
    }
    Ok(out)
}

/// Propagates constant values in an expression, producing either a
/// fully constant value or a new expression whose constant
/// sub-expressions are reduced. No other transformation is applied,
/// and the observable semantics of the expression is kept.
#[verifier::rlimit(100)]
pub fn const_propagate_expr<CL: ConstLookup, FL: ConstEvalFunctionLookup>(
    expr: &Expr,
    cl: &CL,
    fl: &FL,
    ops: &OperatorTables,
) -> (r: Result<ConstValOrExpr, ConstEvalError>)
    requires
        cl.spec_wf(),
    ensures
        spec_res_view(r) == spec_propagate(expr@, *cl, *fl, ops@),
        match r {
            Ok(v) => match v@ {
                VoeView::Const(cv) => cv.wf(),
                VoeView::Expr(_) => true,
            },
            Err(_) => true,
        },
    decreases *expr,
{
    match expr {
        Expr::Variable(ident) => match cl.lookup_const(ident) {
            Some(v) => Ok(ConstValOrExpr::Const(clone_const_val(v))),
            None => Ok(ConstValOrExpr::Expr(Expr::Variable(ident.clone()))),
        },
        Expr::IntConst(v) => Ok(
            ConstValOrExpr::Const(ConstVal::Base(ConstBaseVal::new_int(*v))),
        ),
        Expr::UIntConst(v) => Ok(
            ConstValOrExpr::Const(ConstVal::Base(ConstBaseVal::new_uint(*v))),
        ),
        Expr::BoolConst(v) => Ok(
            ConstValOrExpr::Const(ConstVal::Base(ConstBaseVal::new_bool(*v))),
        ),
        Expr::FloatConst(v) => Ok(
            ConstValOrExpr::Const(ConstVal::Base(ConstBaseVal::new_float(*v))),
        ),
        Expr::DoubleConst(v) => Ok(
            ConstValOrExpr::Const(ConstVal::Base(ConstBaseVal::new_double(*v))),
        ),
        Expr::Unary(op, a) => {
            let ra = match const_propagate_expr(a, cl, fl, ops) {
                Ok(v) => v,
                Err(err) => {
                    return Err(err);
                },
            };
            let va = match ra {
                ConstValOrExpr::Const(v) => v,
                ConstValOrExpr::Expr(ea) => {
                    return Ok(ConstValOrExpr::Expr(Expr::Unary(*op, Box::new(ea))));
                },
            };
            unary_fold(*op, &va, ops)
        },
        Expr::Binary(op, a, b) => {
            let ra = match const_propagate_expr(a, cl, fl, ops) {
                Ok(v) => v,
                Err(err) => {
                    return Err(err);
                },
            };
            let rb = match const_propagate_expr(b, cl, fl, ops) {
                Ok(v) => v,
                Err(err) => {
                    return Err(err);
                },
            };
            binary_step(*op, ra, rb, a, b, ops)
        },
        Expr::Ternary(a, b, c) => {
            let ra = match const_propagate_expr(a, cl, fl, ops) {
                Ok(v) => v,
                Err(err) => {
                    return Err(err);
                },
            };
            match ra {
                ConstValOrExpr::Const(v) => {
                    let cond = match &v {
                        ConstVal::Base(bv) => bv.as_scalar_bool(),
                        _ => None,
                    };
                    match cond {
                        Some(cv) => {
                            if cv {
                                const_propagate_expr(b, cl, fl, ops)
                            } else {
                                const_propagate_expr(c, cl, fl, ops)
                            }
                        },
                        None => Err(ConstEvalError::TernaryExpectedScalarBool),
                    }
                },
                ConstValOrExpr::Expr(ea) => {
                    let rb = match const_propagate_expr(b, cl, fl, ops) {
                        Ok(v) => v,
                        Err(err) => {
                            return Err(err);
                        },
                    };
                    let rc = match const_propagate_expr(c, cl, fl, ops) {
                        Ok(v) => v,
                        Err(err) => {
                            return Err(err);
                        },
                    };
                    let eb = voe_to_expr(&rb, b);
                    let ec = voe_to_expr(&rc, c);
                    Ok(
                        ConstValOrExpr::Expr(
                            Expr::Ternary(Box::new(ea), Box::new(eb), Box::new(ec)),
                        ),
                    )
                },
            }
        },
        Expr::Assignment(a, op, b) => {
            let ra = match const_propagate_expr(a, cl, fl, ops) {
                Ok(v) => v,
                Err(err) => {
                    return Err(err);
                },
            };
            match ra {
                ConstValOrExpr::Const(_) => Err(ConstEvalError::AssignmentExpectedLValue),
                ConstValOrExpr::Expr(ea) => {
                    let rb = match const_propagate_expr(b, cl, fl, ops) {
                        Ok(v) => v,
                        Err(err) => {
                            return Err(err);
                        },
                    };
                    let eb = voe_to_expr(&rb, b);
                    Ok(
                        ConstValOrExpr::Expr(
                            Expr::Assignment(Box::new(ea), *op, Box::new(eb)),
                        ),
                    )
                },
            }
        },
        Expr::Bracket(_, _) => Err(ConstEvalError::IllegalExpression),
        Expr::FunCall(fi, args) => {
            let rs = match propagate_call_args(args, cl, fl, ops) {
                Ok(vs) => vs,
                Err(err) => {
                    return Err(err);
                },
            };
            call_step(fi, rs, args, fl)
        },
        Expr::Dot(a, ident) => {
            let ra = match const_propagate_expr(a, cl, fl, ops) {
                Ok(v) => v,
                Err(err) => {
                    return Err(err);
                },
            };
            match ra {
                ConstValOrExpr::Expr(ea) => Ok(
                    ConstValOrExpr::Expr(Expr::Dot(Box::new(ea), ident.clone())),
                ),
                ConstValOrExpr::Const(v) => dot_fold(&v, ident),
            }
        },
        Expr::PostInc(a) => {
            match const_propagate_expr(a, cl, fl, ops) {
                Ok(ConstValOrExpr::Const(_)) => Err(ConstEvalError::PostOpExpectedLValue),
                Ok(ConstValOrExpr::Expr(ea)) => Ok(
                    ConstValOrExpr::Expr(Expr::PostInc(Box::new(ea))),
                ),
                Err(err) => Err(err),
            }
        },
        Expr::PostDec(a) => {
            match const_propagate_expr(a, cl, fl, ops) {
                Ok(ConstValOrExpr::Const(_)) => Err(ConstEvalError::PostOpExpectedLValue),
                Ok(ConstValOrExpr::Expr(ea)) => Ok(
                    ConstValOrExpr::Expr(Expr::PostDec(Box::new(ea))),
                ),
                Err(err) => Err(err),
            }
        },
        Expr::Comma(a, b) => {
            let ra = match const_propagate_expr(a, cl, fl, ops) {
                Ok(v) => v,
                Err(err) => {
                    return Err(err);
                },
            };
            let rb = match const_propagate_expr(b, cl, fl, ops) {
                Ok(v) => v,
                Err(err) => {
                    return Err(err);
                },
            };
            let ea = voe_to_expr(&ra, a);
            let eb = voe_to_expr(&rb, b);
            Ok(ConstValOrExpr::Expr(Expr::Comma(Box::new(ea), Box::new(eb))))
        },
    }
}

/// Rebuilds the argument expressions of a call that is not folded.
fn rebuild_args(rs: &Vec<ConstValOrExpr>, args: &Vec<Expr>) -> (out: Vec<Expr>)
    requires
        rs@.len() == args@.len(),
        spec_voes_wf(spec_voe_views(rs@)),
    ensures
        spec_view_expr_list(out@) == spec_rebuilt_args(
            spec_voe_views(rs@),
            spec_view_expr_list(args@),
        ),
{
    proof {
        lemma_view_expr_list(args@);
    }
    let mut out: Vec<Expr> = Vec::new();
    let mut i: usize = 0;
    while i < rs.len()
        invariant
            rs@.len() == args@.len(),
            spec_voes_wf(spec_voe_views(rs@)),
            spec_view_expr_list(args@).len() == args@.len(),
            forall|j: int|
                0 <= j < args@.len() ==> spec_view_expr_list(args@)[j] == spec_view_expr(
                    args@[j],
                ),
            0 <= i <= rs@.len(),
            out@.len() == i as int,
            forall|j: int|
                0 <= j < i as int ==> spec_view_expr(#[trigger] out@[j]) == spec_voe_to_expr(
                    spec_voe_views(rs@)[j],
                    spec_view_expr_list(args@)[j],
                ),
        decreases rs@.len() - i,
    {
        proof {
            assert(spec_voe_views(rs@)[i as int] == rs@[i as int]@);
        }
        out.push(voe_to_expr(&rs[i], &args[i]));
        i += 1;
    }
    proof {
        lemma_view_expr_list(out@);
        assert(spec_view_expr_list(out@) =~= spec_rebuilt_args(
            spec_voe_views(rs@),
            spec_view_expr_list(args@),
        ));
    }
    out
}

/// Whether every propagated argument is a constant basic value.
fn all_const_base(rs: &Vec<ConstValOrExpr>) -> (r: bool)
    ensures
        r == (forall|j: int|
            0 <= j < spec_voe_views(rs@).len() ==> (#[trigger] spec_voe_views(rs@)[j]) is Const
                && spec_voe_views(rs@)[j]->Const_0 is Base),
{
    let ghost rsv = spec_voe_views(rs@);
    proof {
        assert(forall|j: int| 0 <= j < rs@.len() ==> (#[trigger] rsv[j]) == rs@[j]@);
    }
    let mut i: usize = 0;
    while i < rs.len()
        invariant
            rsv == spec_voe_views(rs@),
            rsv.len() == rs@.len(),
            forall|j: int| 0 <= j < rs@.len() ==> (#[trigger] rsv[j]) == rs@[j]@,
            0 <= i <= rs@.len(),
            forall|j: int|
                0 <= j < i as int ==> (#[trigger] rsv[j]) is Const && rsv[j]->Const_0 is Base,
        decreases rs@.len() - i,
    {
        let cur = &rs[i];
        proof {
            assert(*cur == rs@[i as int]);
        }
        let cur_base = match cur {
            ConstValOrExpr::Const(v) => match v {
                ConstVal::Base(_) => true,
                _ => false,
            },
            _ => false,
        };
        if !cur_base {
            proof {
                assert(!(rsv[i as int] is Const && rsv[i as int]->Const_0 is Base));
            }
            return false;
        }
        i += 1;
    }
    true
}

/// The constant basic values of a fully constant argument list.
fn collect_call_vals(rs: &Vec<ConstValOrExpr>) -> (vals: Vec<ConstBaseVal>)
    requires
        spec_voes_wf(spec_voe_views(rs@)),
        forall|j: int|
            0 <= j < spec_voe_views(rs@).len() ==> (#[trigger] spec_voe_views(rs@)[j]) is Const
                && spec_voe_views(rs@)[j]->Const_0 is Base,
    ensures
        spec_views_of(vals@) == Seq::new(
            rs@.len() as nat,
            |i: int| spec_voe_views(rs@)[i]->Const_0->Base_0,
        ),
        spec_params_wf(spec_views_of(vals@)),
{
    let ghost rsv = spec_voe_views(rs@);
    proof {
        assert(forall|j: int| 0 <= j < rs@.len() ==> (#[trigger] rsv[j]) == rs@[j]@);
    }
    let mut vals: Vec<ConstBaseVal> = Vec::new();
    let mut k: usize = 0;
    while k < rs.len()
        invariant
            rsv == spec_voe_views(rs@),
            rsv.len() == rs@.len(),
            forall|j: int| 0 <= j < rs@.len() ==> (#[trigger] rsv[j]) == rs@[j]@,
            spec_voes_wf(rsv),
            forall|j: int|
                0 <= j < rsv.len() ==> (#[trigger] rsv[j]) is Const && rsv[j]->Const_0 is Base,
            0 <= k <= rs@.len(),
            vals@.len() == k as int,
            forall|j: int|
                0 <= j < k as int ==> (#[trigger] vals@[j]@) == rsv[j]->Const_0->Base_0,
        decreases rs@.len() - k,
    {
        let cur = &rs[k];
        proof {
            assert(*cur == rs@[k as int]);
            assert(rsv[k as int] is Const && rsv[k as int]->Const_0 is Base);
        }
        match cur {
            ConstValOrExpr::Const(v) => match v {
                ConstVal::Base(b) => {
                    vals.push(copy_base_val(b));
                },
                _ => {
                    proof {
                        assert(false);
                    }
                },
            },
            _ => {
                proof {
                    assert(false);
                }
            },
        }
        k += 1;
    }
    proof {
        assert(spec_views_of(vals@) =~= Seq::new(
            rs@.len() as nat,
            |i: int| rsv[i]->Const_0->Base_0,
        ));
        assert forall|j: int|
            0 <= j < spec_views_of(vals@).len() implies (#[trigger] spec_views_of(vals@)[j]).wf()
        by {
            assert(spec_voe_views(rs@)[j] == rs@[j]@);
        }
    }
    vals
}

/// Folds a unary operator over a constant operand.
fn unary_fold(op: UnaryOp, va: &ConstVal, ops: &OperatorTables) -> (r: Result<
    ConstValOrExpr,
    ConstEvalError,
>)
    requires
        va@.wf(),
    ensures
        spec_res_view(r) == spec_unary_fold(op, va@, ops@),
        match r {
            Ok(v) => match v@ {
                VoeView::Const(cv) => cv.wf(),
                VoeView::Expr(_) => true,
            },
            Err(_) => true,
        },
{
    match va {
        ConstVal::Base(b) => match op {
            UnaryOp::Inc => Err(ConstEvalError::UnaryOpExpectedLValue(UnaryOp::Inc)),
            UnaryOp::Dec => Err(ConstEvalError::UnaryOpExpectedLValue(UnaryOp::Dec)),
            _ => {
                let table = match op {
                    UnaryOp::Add => &ops.unary_add,
                    UnaryOp::Minus => &ops.unary_minus,
                    UnaryOp::Not => &ops.unary_not,
                    _ => &ops.unary_complement,
                };
                let mut params: Vec<ConstBaseVal> = Vec::new();
                params.push(copy_base_val(b));
                proof {
                    assert(spec_views_of(params@) =~= seq![b@]);
                    lemma_eval_function_wf(table@, spec_views_of(params@));
                }
                match table.eval(&params) {
                    Some(res) => Ok(ConstValOrExpr::Const(ConstVal::Base(res))),
                    None => Err(ConstEvalError::IllegalUnaryOperand(op, va.type_specifier())),
                }
            },
        },
        _ => Err(ConstEvalError::IllegalUnaryOperand(op, va.type_specifier())),
    }
}

/// Whether a basic value is of one of the two integer families.
fn is_integer_val(v: &ConstBaseVal) -> (r: bool)
    ensures
        r == spec_is_integer(v@),
{
    match v {
        ConstBaseVal::Int(_) => true,
        ConstBaseVal::UInt(_) => true,
        _ => false,
    }
}

/// Whether an integer value carries a zero element.
fn has_zero_elem(v: &ConstBaseVal) -> (r: bool)
    ensures
        r == spec_has_zero(v@),
{
    match v {
        ConstBaseVal::Int(s) => {
            let mut i: usize = 0;
            while i < s.elems.len()
                invariant
                    v@ == BaseValView::Int(s@),
                    0 <= i <= s.elems@.len(),
                    forall|j: int| 0 <= j < i as int ==> #[trigger] s.elems@[j] != 0,
                decreases s.elems@.len() - i,
            {
                if s.elems[i] == 0 {
                    proof {
                        assert(s@.elems[i as int] == 0);
                        assert(spec_has_zero(v@));
                    }
                    return true;
                }
                i += 1;
            }
            false
        },
        ConstBaseVal::UInt(s) => {
            let mut i: usize = 0;
            while i < s.elems.len()
                invariant
                    v@ == BaseValView::UInt(s@),
                    0 <= i <= s.elems@.len(),
                    forall|j: int| 0 <= j < i as int ==> #[trigger] s.elems@[j] != 0,
                decreases s.elems@.len() - i,
            {
                if s.elems[i] == 0 {
                    proof {
                        assert(s@.elems[i as int] == 0);
                        assert(spec_has_zero(v@));
                    }
                    return true;
                }
                i += 1;
            }
            false
        },
        _ => false,
    }
}

/// Folds a binary operator over two constant operands.
fn binary_fold(op: BinaryOp, va: &ConstVal, vb: &ConstVal, ops: &OperatorTables) -> (r: Result<
    ConstValOrExpr,
    ConstEvalError,
>)
    requires
        va@.wf(),
        vb@.wf(),
    ensures
        spec_res_view(r) == spec_binary_fold(op, va@, vb@, ops@),
        match r {
            Ok(v) => match v@ {
                VoeView::Const(cv) => cv.wf(),
                VoeView::Expr(_) => true,
            },
            Err(_) => true,
        },
{
    let ba = match va.try_into_base() {
        Some(x) => x,
        None => {
            return Err(
                ConstEvalError::IllegalBinaryOperand(op, va.type_specifier(), vb.type_specifier()),
            );
        },
    };
    let bb = match vb.try_into_base() {
        Some(x) => x,
        None => {
            return Err(
                ConstEvalError::IllegalBinaryOperand(op, va.type_specifier(), vb.type_specifier()),
            );
        },
    };
    let is_div = match op {
        BinaryOp::Div => true,
        _ => false,
    };
    if is_div && is_integer_val(ba) && is_integer_val(bb) && has_zero_elem(bb) {
        return Err(
            ConstEvalError::IllegalBinaryOperand(op, va.type_specifier(), vb.type_specifier()),
        );
    }
    let table = match op {
        BinaryOp::Or => &ops.binary_or,
        BinaryOp::Xor => &ops.binary_xor,
        BinaryOp::And => &ops.binary_and,
        BinaryOp::BitOr => &ops.binary_bit_or,
        BinaryOp::BitXor => &ops.binary_bit_xor,
        BinaryOp::BitAnd => &ops.binary_bit_and,
        BinaryOp::Equal => &ops.binary_equal,
        BinaryOp::NonEqual => &ops.binary_equal,
        BinaryOp::LT => &ops.binary_lt,
        BinaryOp::GT => &ops.binary_gt,
        BinaryOp::LTE => &ops.binary_lte,
        BinaryOp::GTE => &ops.binary_gte,
        BinaryOp::LShift => &ops.binary_lshift,
        BinaryOp::RShift => &ops.binary_rshift,
        BinaryOp::Add => &ops.binary_add,
        BinaryOp::Sub => &ops.binary_sub,
        BinaryOp::Mult => &ops.binary_mult,
        BinaryOp::Div => &ops.binary_div,
        BinaryOp::Mod => &ops.binary_mod,
    };
    let mut params: Vec<ConstBaseVal> = Vec::new();
    params.push(copy_base_val(ba));
    params.push(copy_base_val(bb));
    proof {
        assert(spec_views_of(params@) =~= seq![ba@, bb@]);
        lemma_eval_function_wf(table@, spec_views_of(params@));
    }
    let is_non_equal = match op {
        BinaryOp::NonEqual => true,
        _ => false,
    };
    match table.eval(&params) {
        Some(res) => {
            if is_non_equal {
                match res.as_scalar_bool() {
                    Some(bv) => Ok(
                        ConstValOrExpr::Const(ConstVal::Base(ConstBaseVal::new_bool(!bv))),
                    ),
                    None => Err(
                        ConstEvalError::IllegalBinaryOperand(
                            op,
                            va.type_specifier(),
                            vb.type_specifier(),
                        ),
                    ),
                }
            } else {
                Ok(ConstValOrExpr::Const(ConstVal::Base(res)))
            }
        },
        None => Err(
            ConstEvalError::IllegalBinaryOperand(op, va.type_specifier(), vb.type_specifier()),
        ),
    }
}

/// Folds a field selection over a constant.
fn dot_fold(va: &ConstVal, ident: &String) -> (r: Result<ConstValOrExpr, ConstEvalError>)
    requires
        va@.wf(),
    ensures
        spec_res_view(r) == spec_dot_fold(va@, ident@),
        match r {
            Ok(v) => match v@ {
                VoeView::Const(cv) => cv.wf(),
                VoeView::Expr(_) => true,
            },
            Err(_) => true,
        },
{
    match va {
        ConstVal::Struct(st) => {
            proof {
                lemma_entries_lookup_wf(st@.entries, ident@);
            }
            match st.lookup_const(ident) {
                Some(field) => Ok(ConstValOrExpr::Const(clone_const_val(field))),
                None => Err(ConstEvalError::UnknownStructureMember(ident.clone())),
            }
        },
        ConstVal::Array(_) => Err(ConstEvalError::IllegalExpression),
        _ => Err(ConstEvalError::DotStructureRequired),
    }
}

/// Once a prefix of the arguments errs, the whole list errs the
/// same way.
proof fn lemma_propagate_args_err_prefix<CL: ConstLookup, FL: ConstEvalFunctionLookup>(
    s: Seq<ExprView>,
    n: int,
    cl: CL,
    fl: FL,
    ot: OperatorTablesView,
)
    requires
        0 <= n <= s.len(),
        spec_propagate_args(s.take(n), cl, fl, ot) is Err,
    ensures
        spec_propagate_args(s, cl, fl, ot) == spec_propagate_args(s.take(n), cl, fl, ot),
    decreases s.len(),
{
    if n == 0 {
        assert(s.take(0) =~= Seq::<ExprView>::empty());
    } else {
        assert(s.take(n).first() == s[0]);
        assert(s.take(n).drop_first() =~= s.drop_first().take(n - 1));
        if spec_propagate(s[0], cl, fl, ot) is Ok {
            lemma_propagate_args_err_prefix(s.drop_first(), n - 1, cl, fl, ot);
        }
    }
}

/// Handles a binary node once both operands are propagated.
fn binary_step(
    op: BinaryOp,
    ra: ConstValOrExpr,
    rb: ConstValOrExpr,
    a: &Expr,
    b: &Expr,
    ops: &OperatorTables,
) -> (r: Result<ConstValOrExpr, ConstEvalError>)
    requires
        match ra@ {
            VoeView::Const(cv) => cv.wf(),
            VoeView::Expr(_) => true,
        },
        match rb@ {
            VoeView::Const(cv) => cv.wf(),
            VoeView::Expr(_) => true,
        },
    ensures
        spec_res_view(r) == (if ra@ is Const && rb@ is Const {
            spec_binary_fold(op, ra@->Const_0, rb@->Const_0, ops@)
        } else {
            Ok::<VoeView, ErrorView>(
                VoeView::Expr(
                    ExprView::Binary(
                        op,
                        Box::new(spec_voe_to_expr(ra@, a@)),
                        Box::new(spec_voe_to_expr(rb@, b@)),
                    ),
                ),
            )
        }),
        match r {
            Ok(v) => match v@ {
                VoeView::Const(cv) => cv.wf(),
                VoeView::Expr(_) => true,
            },
            Err(_) => true,
        },
{
    match (&ra, &rb) {
        (ConstValOrExpr::Const(va), ConstValOrExpr::Const(vb)) => binary_fold(op, va, vb, ops),
        _ => {
            let ea = voe_to_expr(&ra, a);
            let eb = voe_to_expr(&rb, b);
            Ok(ConstValOrExpr::Expr(Expr::Binary(op, Box::new(ea), Box::new(eb))))
        },
    }
}

/// Handles a call node once every argument is propagated: folds the
/// call where the callee is a known function and every argument is
/// a constant basic value, and rebuilds it otherwise.
#[verifier::rlimit(100)]
fn call_step<FL: ConstEvalFunctionLookup>(
    fi: &FunIdentifier,
    rs: Vec<ConstValOrExpr>,
    args: &Vec<Expr>,
    fl: &FL,
) -> (r: Result<ConstValOrExpr, ConstEvalError>)
    requires
        rs@.len() == args@.len(),
        spec_voes_wf(spec_voe_views(rs@)),
    ensures
        spec_res_view(r) == ({
            let rsv = spec_voe_views(rs@);
            if (forall|i: int|
                0 <= i < rsv.len() ==> (#[trigger] rsv[i]) is Const && rsv[i]->Const_0 is Base)
                && fi@ is Identifier {
                let vals = Seq::new(rsv.len(), |i: int| rsv[i]->Const_0->Base_0);
                match fl.spec_lookup_fn(fi@->Identifier_0) {
                    Some(fview) => match spec_eval_function(fview, vals) {
                        Some(res) => Ok::<VoeView, ErrorView>(
                            VoeView::Const(ValView::Base(res)),
                        ),
                        None => Err::<VoeView, ErrorView>(ErrorView::NoMatchingFunctionOverload),
                    },
                    None => Ok::<VoeView, ErrorView>(
                        VoeView::Expr(
                            ExprView::FunCall(
                                fi@,
                                spec_rebuilt_args(rsv, spec_view_expr_list(args@)),
                            ),
                        ),
                    ),
                }
            } else {
                Ok::<VoeView, ErrorView>(
                    VoeView::Expr(
                        ExprView::FunCall(fi@, spec_rebuilt_args(rsv, spec_view_expr_list(args@))),
                    ),
                )
            }
        }),
        match r {
            Ok(v) => match v@ {
                VoeView::Const(cv) => cv.wf(),
                VoeView::Expr(_) => true,
            },
            Err(_) => true,
        },
{
    let ghost rsv = spec_voe_views(rs@);
    proof {
        assert(forall|j: int| 0 <= j < rs@.len() ==> (#[trigger] rsv[j]) == rs@[j]@);
    }
    let all_base = all_const_base(&rs);
    let name = match fi {
        FunIdentifier::Identifier(n) => Some(n),
        FunIdentifier::Expr(_) => None,
    };
    proof {
        reveal_with_fuel(crate::ast::spec_view_fun_ident, 2);
        assert((name is Some) == (fi@ is Identifier));
    }
    if all_base && name.is_some() {
        let n = name.unwrap();
        proof {
            assert(fi@ is Identifier && n@ == fi@->Identifier_0);
        }
        match fl.lookup(n) {
            Some(func) => {
                let vals = collect_call_vals(&rs);
                proof {
                    assert(spec_params_wf(spec_views_of(vals@)));
                    lemma_eval_function_wf(func@, spec_views_of(vals@));
                    assert(spec_views_of(vals@) =~= Seq::new(
                        rsv.len(),
                        |i: int| rsv[i]->Const_0->Base_0,
                    ));
                }
                match func.eval(&vals) {
                    Some(res) => Ok(ConstValOrExpr::Const(ConstVal::Base(res))),
                    None => Err(ConstEvalError::NoMatchingFunctionOverload),
                }
            },
            None => {
                let cfi = clone_fun_ident(fi);
                let rebuilt = rebuild_args(&rs, args);
                let result = Expr::FunCall(cfi, rebuilt);
                proof {
                    reveal_with_fuel(crate::ast::spec_view_expr, 2);
                    assert(result@ == ExprView::FunCall(
                        fi@,
                        spec_rebuilt_args(rsv, spec_view_expr_list(args@)),
                    ));
                }
                Ok(ConstValOrExpr::Expr(result))
            },
        }
    } else {
        let cfi = clone_fun_ident(fi);
        let rebuilt = rebuild_args(&rs, args);
        let result = Expr::FunCall(cfi, rebuilt);
        proof {
            reveal_with_fuel(crate::ast::spec_view_expr, 2);
            assert(result@ == ExprView::FunCall(
                fi@,
                spec_rebuilt_args(rsv, spec_view_expr_list(args@)),
            ));
        }
        Ok(ConstValOrExpr::Expr(result))
    }
}

/// A registry of constant-evaluable functions keyed by name; the
/// lookup interface the propagator consults for function calls.
#[derive(Debug)]
pub struct FunctionRegistry {
    pub entries: Vec<(String, ConstEvalFunction)>,
}

pub open spec fn spec_registry_lookup(
    entries: Seq<(Seq<char>, Seq<InstanceView>)>,
    name: Seq<char>,
) -> Option<Seq<InstanceView>>
    decreases entries,
{
    if entries.len() == 0 {
        None
    } else if entries.first().0 == name {
        Some(entries.first().1)
    } else {
        spec_registry_lookup(entries.drop_first(), name)
    }
}

impl View for FunctionRegistry {
    type V = Seq<(Seq<char>, Seq<InstanceView>)>;

    open spec fn view(&self) -> Seq<(Seq<char>, Seq<InstanceView>)> {
        Seq::new(self.entries@.len(), |i: int| (self.entries@[i].0@, self.entries@[i].1@))
    }
}

impl FunctionRegistry {
    pub fn new() -> (r: Self)
        ensures
            r@ =~= Seq::<(Seq<char>, Seq<InstanceView>)>::empty(),
    {
        FunctionRegistry { entries: Vec::new() }
    }

    /// Registers a function under a name; a later entry of the same
    /// name is shadowed by the earlier one.
    pub fn add(&mut self, name: String, f: ConstEvalFunction)
        ensures
            final(self)@ =~= old(self)@.push((name@, f@)),
    {
        let ghost before = self@;
        let ghost nv = name@;
        let ghost fv = f@;
        self.entries.push((name, f));
        proof {
            assert(self@ =~= before.push((nv, fv)));
        }
    }
}

pub(crate) proof fn lemma_registry_lookup_hit(
    s: Seq<(Seq<char>, Seq<InstanceView>)>,
    name: Seq<char>,
    i: int,
)
    requires
        0 <= i < s.len(),
        forall|j: int| 0 <= j < i ==> s[j].0 != name,
        s[i].0 == name,
    ensures
        spec_registry_lookup(s, name) == Some(s[i].1),
    decreases s,
{
    if i > 0 {
        assert(forall|j: int| 0 <= j < s.drop_first().len() ==> #[trigger] s.drop_first()[j] == s[j + 1]);
        lemma_registry_lookup_hit(s.drop_first(), name, i - 1);
    }
}

proof fn lemma_registry_lookup_miss(s: Seq<(Seq<char>, Seq<InstanceView>)>, name: Seq<char>)
    requires
        forall|j: int| 0 <= j < s.len() ==> s[j].0 != name,
    ensures
        spec_registry_lookup(s, name) is None,
    decreases s,
{
    if s.len() > 0 {
        assert(forall|j: int| 0 <= j < s.drop_first().len() ==> #[trigger] s.drop_first()[j] == s[j + 1]);
        lemma_registry_lookup_miss(s.drop_first(), name);
    }
}

impl ConstEvalFunctionLookup for FunctionRegistry {
    open spec fn spec_lookup_fn(&self, name: Seq<char>) -> Option<Seq<InstanceView>> {
        spec_registry_lookup(self@, name)
    }

    fn lookup(&self, ident: &String) -> (r: Option<&ConstEvalFunction>) {
        proof {
            assert(forall|j: int|
                0 <= j < self.entries@.len() ==> (#[trigger] self@[j]) == (
                    self.entries@[j].0@,
                    self.entries@[j].1@,
                ));
        }
        let mut i: usize = 0;
        while i < self.entries.len()
            invariant
                self@.len() == self.entries@.len(),
                forall|j: int|
                    0 <= j < self.entries@.len() ==> (#[trigger] self@[j]) == (
                        self.entries@[j].0@,
                        self.entries@[j].1@,
                    ),
                0 <= i <= self.entries@.len(),
                forall|j: int| 0 <= j < i as int ==> (#[trigger] self@[j]).0 != ident@,
            decreases self.entries@.len() - i,
        {
            if self.entries[i].0 == *ident {
                proof {
                    lemma_registry_lookup_hit(self@, ident@, i as int);
                }
                return Some(&self.entries[i].1);
            }
            i += 1;
        }
        proof {
            lemma_registry_lookup_miss(self@, ident@);
        }
        None
    }
}

/// A stack of scopes, each a list of named constant bindings;
/// lookup walks from the innermost scope outward. The statement
/// walker pushes a scope per block, installs constant declarations,
/// and invalidates a binding on reassignment by removing it.
#[derive(Debug)]
pub struct ScopedConstLookup {
    pub scopes: Vec<Vec<(String, ConstVal)>>,
}

pub open spec fn spec_scope_view(s: Seq<(String, ConstVal)>) -> Seq<(Seq<char>, ValView)> {
    Seq::new(s.len(), |i: int| (s[i].0@, s[i].1@))
}

pub open spec fn spec_scoped_lookup(
    scopes: Seq<Seq<(Seq<char>, ValView)>>,
    name: Seq<char>,
) -> Option<ValView>
    decreases scopes,
{
    if scopes.len() == 0 {
        None
    } else {
        match spec_entries_lookup(scopes.last(), name) {
            Some(v) => Some(v),
            None => spec_scoped_lookup(scopes.drop_last(), name),
        }
    }
}

impl ScopedConstLookup {
    pub open spec fn spec_scopes(&self) -> Seq<Seq<(Seq<char>, ValView)>> {
        Seq::new(self.scopes@.len(), |i: int| spec_scope_view(self.scopes@[i]@))
    }

    /// Every stored value is well formed.
    pub open spec fn scopes_wf(&self) -> bool {
        forall|i: int, j: int|
            0 <= i < self.spec_scopes().len() && 0 <= j < self.spec_scopes()[i].len()
                ==> (#[trigger] self.spec_scopes()[i][j]).1.wf()
    }

    pub fn new() -> (r: Self)
        ensures
            r.spec_scopes().len() == 1,
            r.spec_scopes()[0] =~= Seq::<(Seq<char>, ValView)>::empty(),
            r.scopes_wf(),
    {
        let mut scopes: Vec<Vec<(String, ConstVal)>> = Vec::new();
        scopes.push(Vec::new());
        let r = ScopedConstLookup { scopes };
        proof {
            assert(r.spec_scopes()[0] =~= Seq::<(Seq<char>, ValView)>::empty());
        }
        r
    }

    /// Installs a binding in the innermost scope, shadowing any
    /// earlier binding of the name; every other scope is untouched.
    pub fn set_value(&mut self, name: &String, value: ConstVal)
        requires
            old(self).spec_scopes().len() > 0,
        ensures
            final(self).spec_scopes().len() == old(self).spec_scopes().len(),
            final(self).spec_scopes().last() == seq![(name@, value@)] + old(
                self,
            ).spec_scopes().last(),
            forall|i: int|
                0 <= i < old(self).spec_scopes().len() - 1 ==> final(self).spec_scopes()[i] == old(
                    self,
                ).spec_scopes()[i],
            spec_scoped_lookup(final(self).spec_scopes(), name@) == Some(value@),
            old(self).scopes_wf() && value@.wf() ==> final(self).scopes_wf(),
    {
        let ghost oldsc = self.spec_scopes();
        let ghost nv = name@;
        let ghost vv = value@;
        let last = self.scopes.len() - 1;
        let mut scope = self.scopes.remove(last);
        let ghost oldlast = spec_scope_view(scope@);
        proof {
            assert(oldlast == oldsc.last());
        }
        scope.insert(0, (name.clone(), value));
        proof {
            assert(spec_scope_view(scope@) =~= seq![(nv, vv)] + oldlast);
        }
        self.scopes.insert(last, scope);
        proof {
            assert(self.spec_scopes() =~= oldsc.update(
                last as int,
                seq![(nv, vv)] + oldlast,
            ));
            assert(self.spec_scopes().last() == seq![(nv, vv)] + oldlast);
            assert((seq![(nv, vv)] + oldlast).first() == (nv, vv));
            assert((seq![(nv, vv)] + oldlast).len() > 0);
            assert(spec_entries_lookup(self.spec_scopes().last(), nv) == Some(vv));
            if old(self).scopes_wf() && vv.wf() {
                assert forall|i: int, j: int|
                    0 <= i < self.spec_scopes().len() && 0 <= j
                        < self.spec_scopes()[i].len() implies (#[trigger] self.spec_scopes(
                )[i][j]).1.wf() by {
                    if i == last as int {
                        if j == 0 {
                        } else {
                            assert(self.spec_scopes()[i][j] == oldsc[i][j - 1]);
                            assert(oldsc[i][j - 1].1.wf());
                        }
                    } else {
                        assert(self.spec_scopes()[i] == oldsc[i]);
                        assert(oldsc[i][j].1.wf());
                    }
                }
            }
        }
    }

    /// Opens a nested, initially empty scope; the existing scopes
    /// are untouched.
    pub fn push_scope(&mut self)
        ensures
            final(self).spec_scopes().len() == old(self).spec_scopes().len() + 1,
            final(self).spec_scopes().last() =~= Seq::<(Seq<char>, ValView)>::empty(),
            forall|i: int|
                0 <= i < old(self).spec_scopes().len() ==> final(self).spec_scopes()[i] == old(
                    self,
                ).spec_scopes()[i],
            old(self).scopes_wf() ==> final(self).scopes_wf(),
    {
        let ghost oldsc = self.spec_scopes();
        self.scopes.push(Vec::new());
        proof {
            assert(spec_scope_view(self.scopes@[oldsc.len() as int]@) =~= Seq::<
                (Seq<char>, ValView),
            >::empty());
            assert(self.spec_scopes() =~= oldsc.push(
                Seq::<(Seq<char>, ValView)>::empty(),
            ));
            assert(self.spec_scopes().last() =~= Seq::<(Seq<char>, ValView)>::empty());
            if old(self).scopes_wf() {
                assert forall|i: int, j: int|
                    0 <= i < self.spec_scopes().len() && 0 <= j
                        < self.spec_scopes()[i].len() implies (#[trigger] self.spec_scopes(
                )[i][j]).1.wf() by {
                    assert(i < oldsc.len());
                    assert(self.spec_scopes()[i] == oldsc[i]);
                    assert(oldsc[i][j].1.wf());
                }
            }
        }
    }

    /// Closes the innermost scope, dropping its bindings; the outer
    /// scopes are restored untouched.
    pub fn pop_scope(&mut self)
        requires
            old(self).spec_scopes().len() > 0,
        ensures
            final(self).spec_scopes() == old(self).spec_scopes().drop_last(),
            old(self).scopes_wf() ==> final(self).scopes_wf(),
    {
        let ghost oldsc = self.spec_scopes();
        let last = self.scopes.len() - 1;
        let _ = self.scopes.remove(last);
        proof {
            assert(self.spec_scopes() =~= oldsc.drop_last());
            if old(self).scopes_wf() {
                assert forall|i: int, j: int|
                    0 <= i < self.spec_scopes().len() && 0 <= j
                        < self.spec_scopes()[i].len() implies (#[trigger] self.spec_scopes(
                )[i][j]).1.wf() by {
                    assert(self.spec_scopes()[i] == oldsc[i]);
                    assert(oldsc[i][j].1.wf());
                }
            }
        }
    }

    /// The innermost binding of the name, searching the scopes from
    /// the innermost outward.
    pub fn lookup_value(&self, ident: &String) -> (r: Option<&ConstVal>)
        ensures
            match r {
                Some(v) => spec_scoped_lookup(self.spec_scopes(), ident@) == Some(v@),
                None => spec_scoped_lookup(self.spec_scopes(), ident@) is None,
            },
    {
        let ghost sv = self.spec_scopes();
        proof {
            assert(sv.take(sv.len() as int) =~= sv);
        }
        let mut i: usize = self.scopes.len();
        while i > 0
            invariant
                sv == self.spec_scopes(),
                sv.len() == self.scopes@.len(),
                0 <= i <= self.scopes@.len(),
                spec_scoped_lookup(sv.take(i as int), ident@) == spec_scoped_lookup(sv, ident@),
            decreases i,
        {
            i = i - 1;
            proof {
                assert(sv.take(i as int + 1).last() == sv[i as int]);
                assert(sv.take(i as int + 1).drop_last() =~= sv.take(i as int));
                assert(sv[i as int] == spec_scope_view(self.scopes@[i as int]@));
            }
            let scope = &self.scopes[i];
            let mut k: usize = 0;
            while k < scope.len()
                invariant
                    sv == self.spec_scopes(),
                    sv.len() == self.scopes@.len(),
                    sv[i as int] == spec_scope_view(self.scopes@[i as int]@),
                    spec_scoped_lookup(sv.take(i as int + 1), ident@) == spec_scoped_lookup(
                        sv,
                        ident@,
                    ),
                    0 <= i < self.scopes@.len(),
                    scope@ == self.scopes@[i as int]@,
                    0 <= k <= scope@.len(),
                    forall|j: int|
                        0 <= j < k as int ==> (#[trigger] spec_scope_view(scope@)[j]).0 != ident@,
                decreases scope@.len() - k,
            {
                proof {
                    assert(spec_scope_view(scope@)[k as int] == (
                        scope@[k as int].0@,
                        scope@[k as int].1@,
                    ));
                }
                if scope[k].0 == *ident {
                    proof {
                        lemma_scope_lookup_hit(spec_scope_view(scope@), ident@, k as int);
                    }
                    return Some(&scope[k].1);
                }
                k += 1;
            }
            proof {
                lemma_scope_lookup_miss(spec_scope_view(scope@), ident@);
            }
        }
        proof {
            assert(sv.take(0) =~= Seq::<Seq<(Seq<char>, ValView)>>::empty());
        }
        None
    }
}

proof fn lemma_scope_lookup_hit(s: Seq<(Seq<char>, ValView)>, name: Seq<char>, i: int)
    requires
        0 <= i < s.len(),
        forall|j: int| 0 <= j < i ==> s[j].0 != name,
        s[i].0 == name,
    ensures
        spec_entries_lookup(s, name) == Some(s[i].1),
    decreases s,
{
    if i > 0 {
        assert(forall|j: int| 0 <= j < s.drop_first().len() ==> #[trigger] s.drop_first()[j] == s[j + 1]);
        lemma_scope_lookup_hit(s.drop_first(), name, i - 1);
    }
}

proof fn lemma_scope_lookup_miss(s: Seq<(Seq<char>, ValView)>, name: Seq<char>)
    requires
        forall|j: int| 0 <= j < s.len() ==> s[j].0 != name,
    ensures
        spec_entries_lookup(s, name) is None,
    decreases s,
{
    if s.len() > 0 {
        assert(forall|j: int| 0 <= j < s.drop_first().len() ==> #[trigger] s.drop_first()[j] == s[j + 1]);
        lemma_scope_lookup_miss(s.drop_first(), name);
    }
}

/// A constant lookup with no bindings: every name stays a free
/// variable.
#[derive(Debug)]
pub struct EmptyConstLookup;

impl ConstLookup for EmptyConstLookup {
    open spec fn spec_wf(&self) -> bool {
        true
    }

    open spec fn spec_lookup_const(&self, name: Seq<char>) -> Option<ValView> {
        None
    }

    fn lookup_const(&self, ident: &String) -> (r: Option<&ConstVal>) {
        None
    }
}

/// A flat set of named constant bindings; the first entry of a name
/// wins.
#[derive(Debug)]
pub struct ConstBindings {
    pub entries: Vec<(String, ConstVal)>,
}

impl ConstBindings {
    pub open spec fn spec_entries(&self) -> Seq<(Seq<char>, ValView)> {
        spec_scope_view(self.entries@)
    }

    pub fn new() -> (r: Self)
        ensures
            r.spec_entries() =~= Seq::<(Seq<char>, ValView)>::empty(),
    {
        ConstBindings { entries: Vec::new() }
    }

    /// Installs a binding, shadowing any earlier binding of the
    /// name; every other name's lookup is unchanged.
    pub fn set_value(&mut self, name: &String, value: ConstVal)
        ensures
            final(self).spec_lookup_const(name@) == Some(value@),
            forall|n: Seq<char>|
                n != name@ ==> #[trigger] final(self).spec_lookup_const(n) == old(
                    self,
                ).spec_lookup_const(n),
            old(self).spec_wf() && value@.wf() ==> final(self).spec_wf(),
    {
        let ghost before = spec_scope_view(self.entries@);
        let ghost nv = name@;
        let ghost vv = value@;
        self.entries.insert(0, (name.clone(), value));
        proof {
            assert(spec_scope_view(self.entries@) =~= seq![(nv, vv)] + before);
            assert(spec_scope_view(self.entries@).first() == (nv, vv));
            assert(spec_scope_view(self.entries@).drop_first() =~= before);
            assert forall|n: Seq<char>| n != nv implies #[trigger] spec_entries_lookup(
                self.spec_entries(),
                n,
            ) == spec_entries_lookup(before, n) by {
                assert(self.spec_entries().first().0 == nv);
                assert(self.spec_entries().drop_first() =~= before);
            }
            if old(self).spec_wf() && vv.wf() {
                assert forall|i: int|
                    0 <= i < self.spec_entries().len() implies (#[trigger] self.spec_entries(
                )[i]).1.wf() by {
                    if i > 0 {
                        assert(self.spec_entries()[i] == before[i - 1]);
                        assert(old(self).spec_entries()[i - 1] == before[i - 1]);
                        assert((old(self).spec_entries()[i - 1]).1.wf());
                    }
                }
            }
        }
    }
}

impl ConstLookup for ConstBindings {
    open spec fn spec_wf(&self) -> bool {
        forall|i: int|
            0 <= i < self.spec_entries().len() ==> (#[trigger] self.spec_entries()[i]).1.wf()
    }

    open spec fn spec_lookup_const(&self, name: Seq<char>) -> Option<ValView> {
        spec_entries_lookup(self.spec_entries(), name)
    }

    fn lookup_const(&self, ident: &String) -> (r: Option<&ConstVal>) {
        let ghost ev = self.spec_entries();
        proof {
            assert(forall|j: int|
                0 <= j < self.entries@.len() ==> (#[trigger] ev[j]) == (
                    self.entries@[j].0@,
                    self.entries@[j].1@,
                ));
        }
        let mut i: usize = 0;
        while i < self.entries.len()
            invariant
                ev == self.spec_entries(),
                ev.len() == self.entries@.len(),
                forall|j: int|
                    0 <= j < self.entries@.len() ==> (#[trigger] ev[j]) == (
                        self.entries@[j].0@,
                        self.entries@[j].1@,
                    ),
                0 <= i <= self.entries@.len(),
                forall|j: int| 0 <= j < i as int ==> (#[trigger] ev[j]).0 != ident@,
            decreases self.entries@.len() - i,
        {
            if self.entries[i].0 == *ident {
                proof {
                    lemma_scope_lookup_hit(ev, ident@, i as int);
                    if self.spec_wf() {
                        assert(ev[i as int].1.wf());
                    }
                }
                return Some(&self.entries[i].1);
            }
            i += 1;
        }
        proof {
            lemma_scope_lookup_miss(ev, ident@);
        }
        None
    }
}

/// Purity of the propagator: propagation is a mathematical function
/// of the expression, the lookups and the operator tables, so two
/// runs over the same inputs give one result, bit for bit. The
/// executable propagator's contract equates its result with
/// `spec_propagate`, of which this is the functionality.
pub proof fn lemma_propagate_pure<CL: ConstLookup, FL: ConstEvalFunctionLookup>(
    r1: Result<VoeView, ErrorView>,
    r2: Result<VoeView, ErrorView>,
    e: ExprView,
    cl: CL,
    fl: FL,
    ot: OperatorTablesView,
)
    requires
        r1 == spec_propagate(e, cl, fl, ot),
        r2 == spec_propagate(e, cl, fl, ot),
    ensures
        r1 == r2,
{
}

/// The literal fixpoint of the propagator: a literal folds to the
/// matching constant scalar value under every lookup and every
/// operator table.
pub proof fn lemma_literal_fixpoint<CL: ConstLookup, FL: ConstEvalFunctionLookup>(
    cl: CL,
    fl: FL,
    ot: OperatorTablesView,
    iv: i32,
    uv: u32,
    bv: bool,
    fv: crate::scalar::F32Bits,
    dv: crate::scalar::F64Bits,
)
    ensures
        spec_propagate(ExprView::IntConst(iv), cl, fl, ot) == Ok::<VoeView, ErrorView>(
            VoeView::Const(
                ValView::Base(
                    BaseValView::Int(SvmView { shape: BaseTypeShape::Scalar, elems: seq![iv] }),
                ),
            ),
        ),
        spec_propagate(ExprView::UIntConst(uv), cl, fl, ot) == Ok::<VoeView, ErrorView>(
            VoeView::Const(
                ValView::Base(
                    BaseValView::UInt(SvmView { shape: BaseTypeShape::Scalar, elems: seq![uv] }),
                ),
            ),
        ),
        spec_propagate(ExprView::BoolConst(bv), cl, fl, ot) == Ok::<VoeView, ErrorView>(
            VoeView::Const(
                ValView::Base(
                    BaseValView::Bool(SvmView { shape: BaseTypeShape::Scalar, elems: seq![bv] }),
                ),
            ),
        ),
        spec_propagate(ExprView::FloatConst(fv), cl, fl, ot) == Ok::<VoeView, ErrorView>(
            VoeView::Const(
                ValView::Base(
                    BaseValView::Float(SvmView { shape: BaseTypeShape::Scalar, elems: seq![fv] }),
                ),
            ),
        ),
        spec_propagate(ExprView::DoubleConst(dv), cl, fl, ot) == Ok::<VoeView, ErrorView>(
            VoeView::Const(
                ValView::Base(
                    BaseValView::Double(SvmView { shape: BaseTypeShape::Scalar, elems: seq![dv] }),
                ),
            ),
        ),
{
}

/// Equality symmetry at the propagator: where an equality or
/// inequality of two constant basic values folds at all, swapping
/// the operands folds to the same value. (The error of a fold that
/// fails names the two operand types in their given order, so only
/// present folds are compared.)
pub proof fn lemma_equal_fold_symmetric(
    op: BinaryOp,
    ba: BaseValView,
    bb: BaseValView,
    ot: OperatorTablesView,
)
    requires
        op is Equal || op is NonEqual,
        crate::builtin::spec_builtin_tables(ot),
        ba.wf(),
        bb.wf(),
    ensures
        spec_binary_fold(op, ValView::Base(ba), ValView::Base(bb), ot) is Ok
            ==> spec_binary_fold(op, ValView::Base(ba), ValView::Base(bb), ot)
            == spec_binary_fold(op, ValView::Base(bb), ValView::Base(ba), ot),
{
    crate::builtin::lemma_builtin_equal_symmetric(ot, ba, bb);
    assert(spec_binary_table(ot, op) == ot.binary_equal);
}

/// Propagating the element literals of a basic value yields its
/// element scalars, one constant per literal, under every lookup
/// and every operator table.
#[verifier::rlimit(100)]
#[verifier::spinoff_prover]
proof fn lemma_propagate_literal_args<CL: ConstLookup, FL: ConstEvalFunctionLookup>(
    v: BaseValView,
    args: Seq<ExprView>,
    k: int,
    cl: CL,
    fl: FL,
    ot: OperatorTablesView,
)
    requires
        0 <= k,
        k + args.len() <= v.spec_shape().spec_width(),
        forall|i: int|
            0 <= i < args.len() ==> #[trigger] args[i] == crate::literal::spec_elem_literal(
                v,
                k + i,
            ),
    ensures
        spec_propagate_args(args, cl, fl, ot) == Ok::<Seq<VoeView>, ErrorView>(
            Seq::new(
                args.len(),
                |i: int|
                    VoeView::Const(
                        ValView::Base(crate::builtin::spec_elem_scalar(v, k + i)),
                    ),
            ),
        ),
    decreases args.len(),
{
    if args.len() == 0 {
        assert(spec_propagate_args(args, cl, fl, ot) == Ok::<Seq<VoeView>, ErrorView>(
            Seq::<VoeView>::empty(),
        ));
        assert(Seq::new(
            args.len(),
            |i: int| VoeView::Const(ValView::Base(crate::builtin::spec_elem_scalar(v, k + i))),
        ) =~= Seq::<VoeView>::empty());
    } else {
        assert(args.first() == crate::literal::spec_elem_literal(v, k));
        assert(spec_propagate(args.first(), cl, fl, ot) == Ok::<VoeView, ErrorView>(
            VoeView::Const(ValView::Base(crate::builtin::spec_elem_scalar(v, k))),
        )) by {
            match v {
                BaseValView::Bool(_) => {},
                BaseValView::Int(_) => {},
                BaseValView::UInt(_) => {},
                BaseValView::Float(_) => {},
                BaseValView::Double(_) => {},
            }
        }
        assert(forall|i: int|
            0 <= i < args.drop_first().len() ==> #[trigger] args.drop_first()[i]
                == crate::literal::spec_elem_literal(v, k + 1 + i));
        lemma_propagate_literal_args(v, args.drop_first(), k + 1, cl, fl, ot);
        let whole = Seq::new(
            args.len(),
            |i: int| VoeView::Const(ValView::Base(crate::builtin::spec_elem_scalar(v, k + i))),
        );
        let rest = Seq::new(
            args.drop_first().len(),
            |i: int|
                VoeView::Const(
                    ValView::Base(crate::builtin::spec_elem_scalar(v, k + 1 + i)),
                ),
        );
        assert(seq![
            VoeView::Const(ValView::Base(crate::builtin::spec_elem_scalar(v, k))),
        ] + rest =~= whole);
    }
}

/// Constructor round trip: rewriting any constant basic value as
/// its canonical literal expression and propagating that expression
/// folds back to the value itself, bit for bit. A scalar folds as a
/// literal; any other shape folds through its surface-syntax
/// constructor, which the function lookup must resolve to the
/// built-in constructor table of the value's shape and base type,
/// as the lookup built by `builtin_functions` does for each
/// registered name.
#[verifier::rlimit(100)]
#[verifier::spinoff_prover]
pub proof fn lemma_constructor_round_trip<CL: ConstLookup, FL: ConstEvalFunctionLookup>(
    v: BaseValView,
    cl: CL,
    fl: FL,
    ot: OperatorTablesView,
)
    requires
        v.wf(),
        !v.spec_shape().spec_is_scalar() ==> fl.spec_lookup_fn(
            crate::types::spec_surface_name(
                ParameterBaseType::spec_from_const_val(v),
                v.spec_shape(),
            ),
        ) == Some(
            if v.spec_shape().spec_is_vector() {
                crate::builtin::spec_vec_ctor_table(
                    v.spec_shape(),
                    ParameterBaseType::spec_from_const_val(v),
                )
            } else {
                crate::builtin::spec_mat_ctor_table(
                    v.spec_shape(),
                    ParameterBaseType::spec_from_const_val(v),
                )
            },
        ),
    ensures
        spec_propagate(crate::literal::spec_as_expr(v), cl, fl, ot) == Ok::<VoeView, ErrorView>(
            VoeView::Const(ValView::Base(v)),
        ),
{
    let shape = v.spec_shape();
    let base = ParameterBaseType::spec_from_const_val(v);
    if shape.spec_is_scalar() {
        match v {
            BaseValView::Bool(s) => {
                assert(s.elems =~= seq![s.elems[0]]);
            },
            BaseValView::Int(s) => {
                assert(s.elems =~= seq![s.elems[0]]);
            },
            BaseValView::UInt(s) => {
                assert(s.elems =~= seq![s.elems[0]]);
            },
            BaseValView::Float(s) => {
                assert(s.elems =~= seq![s.elems[0]]);
            },
            BaseValView::Double(s) => {
                assert(s.elems =~= seq![s.elems[0]]);
            },
        }
    } else {
        let w = shape.spec_width();
        let name = crate::types::spec_surface_name(base, shape);
        let args = Seq::new(w, |i: int| crate::literal::spec_elem_literal(v, i));
        let e = crate::literal::spec_as_expr(v);
        assert(e == ExprView::FunCall(FunIdentifierView::Identifier(name), args));
        lemma_propagate_literal_args(v, args, 0, cl, fl, ot);
        let rs = Seq::new(
            args.len(),
            |i: int| VoeView::Const(ValView::Base(crate::builtin::spec_elem_scalar(v, i))),
        );
        assert(Seq::new(
            args.len(),
            |i: int|
                VoeView::Const(
                    ValView::Base(crate::builtin::spec_elem_scalar(v, 0 + i)),
                ),
        ) =~= rs);
        assert(spec_propagate_args(args, cl, fl, ot) == Ok::<Seq<VoeView>, ErrorView>(rs));
        assert(forall|i: int|
            0 <= i < rs.len() ==> (#[trigger] rs[i]) is Const && rs[i]->Const_0 is Base);
        let vals = Seq::new(rs.len(), |i: int| rs[i]->Const_0->Base_0);
        assert(vals =~= crate::builtin::spec_scalar_params_of(v));
        if shape.spec_is_vector() {
            crate::builtin::lemma_ctor_eval_vec(v);
        } else {
            crate::builtin::lemma_ctor_eval_mat(v);
        }
        assert(spec_eval_function(fl.spec_lookup_fn(name).unwrap(), vals) == Some(v));
    }
}

} // verus!
