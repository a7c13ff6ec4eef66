use vstd::prelude::*;
use core::cmp::Ordering;
use crate::shape::BaseTypeShape;
use crate::scalar::{UnaryElemOp, BinElemOp, CmpElemOp};
use crate::value::{ConstBaseVal, BaseValView, SvmView, opt_view};
use crate::param::{ParameterBaseType, ParameterShape, ParameterType, spec_reverse,
    spec_ord_of_ranks, lemma_param_type_cmp_antisymmetric, lemma_param_type_cmp_transitive};
use crate::ops::{ShiftDir, spec_apply_un, spec_apply_bin, spec_apply_cmp, spec_apply_equal,
    spec_apply_shift, spec_apply_linmul, apply_un, apply_bin, apply_cmp, apply_equal, apply_shift,
    apply_linmul, spec_cast_val, cast_val, lemma_cast_val_wf};
use crate::builtin::{spec_views_of, spec_construct_scalar, spec_construct_vec, spec_construct_mat,
    construct_scalar, construct_vec, construct_mat};

verus! {

broadcast use {vstd::std_specs::vec::group_vec_axioms, vstd::seq::group_seq_axioms};

/// The evaluator of one overload: which operation it performs on its
/// already-cast arguments. The overload table pairs one of these
/// with a prototype, which makes the table plain data.
#[derive(Copy, Clone, PartialEq, Eq, Structural, Debug)]
pub enum EvalOp {
    /// Component-wise unary operation on one argument.
    Unary(UnaryElemOp),
    /// Component-wise binary operation with scalar broadcast.
    Binary(BinElemOp),
    /// Scalar ordering comparison; the result is a scalar boolean.
    Compare(CmpElemOp),
    /// Whole-value equality folded over the components.
    EqualFold,
    /// A shift, whose right-hand side may keep its own integer type.
    Shift(ShiftDir),
    /// Matrix times vector or vector times matrix.
    LinMul,
    /// A zero-parameter overload producing a fixed unsigned scalar.
    ConstantUInt(u32),
    /// The scalar type constructor of the given base type.
    ConstructScalar(ParameterBaseType),
    /// The vector type constructor of the given shape and base type.
    ConstructVec(BaseTypeShape, ParameterBaseType),
    /// The matrix type constructor of the given shape and base type.
    ConstructMat(BaseTypeShape, ParameterBaseType),
}

/// What an evaluator returns on a parameter list: the value, or
/// absent where the parameters are outside the operation's domain,
/// which tells the dispatcher to keep searching.
pub open spec fn spec_apply_op(op: EvalOp, params: Seq<BaseValView>) -> Option<BaseValView> {
    match op {
        EvalOp::Unary(u) => if params.len() == 1 {
            spec_apply_un(u, params[0])
        } else {
            None
        },
        EvalOp::Binary(b) => if params.len() == 2 {
            spec_apply_bin(b, params[0], params[1])
        } else {
            None
        },
        EvalOp::Compare(c) => if params.len() == 2 {
            spec_apply_cmp(c, params[0], params[1])
        } else {
            None
        },
        EvalOp::EqualFold => if params.len() == 2 {
            spec_apply_equal(params[0], params[1])
        } else {
            None
        },
        EvalOp::Shift(d) => if params.len() == 2 {
            spec_apply_shift(d, params[0], params[1])
        } else {
            None
        },
        EvalOp::LinMul => if params.len() == 2 {
            spec_apply_linmul(params[0], params[1])
        } else {
            None
        },
        EvalOp::ConstantUInt(v) => if params.len() == 0 {
            Some(BaseValView::UInt(SvmView { shape: BaseTypeShape::Scalar, elems: seq![v] }))
        } else {
            None
        },
        EvalOp::ConstructScalar(base) => spec_construct_scalar(base, params),
        EvalOp::ConstructVec(shape, base) => spec_construct_vec(shape, base, params),
        EvalOp::ConstructMat(shape, base) => spec_construct_mat(shape, base, params),
    }
}

pub open spec fn spec_params_wf(params: Seq<BaseValView>) -> bool {
    forall|i: int| 0 <= i < params.len() ==> (#[trigger] params[i]).wf()
}

/// Runs an evaluator on a parameter list.
pub fn apply_op(op: EvalOp, params: &Vec<ConstBaseVal>) -> (r: Option<ConstBaseVal>)
    requires
        spec_params_wf(spec_views_of(params@)),
    ensures
        opt_view(r) == spec_apply_op(op, spec_views_of(params@)),
{
    proof {
        assert(forall|k: int|
            0 <= k < params@.len() ==> (#[trigger] params@[k]@) == spec_views_of(params@)[k]);
    }
    match op {
        EvalOp::Unary(u) => {
            if params.len() == 1 {
                apply_un(u, &params[0])
            } else {
                None
            }
        },
        EvalOp::Binary(b) => {
            if params.len() == 2 {
                apply_bin(b, &params[0], &params[1])
            } else {
                None
            }
        },
        EvalOp::Compare(c) => {
            if params.len() == 2 {
                apply_cmp(c, &params[0], &params[1])
            } else {
                None
            }
        },
        EvalOp::EqualFold => {
            if params.len() == 2 {
                apply_equal(&params[0], &params[1])
            } else {
                None
            }
        },
        EvalOp::Shift(d) => {
            if params.len() == 2 {
                apply_shift(d, &params[0], &params[1])
            } else {
                None
            }
        },
        EvalOp::LinMul => {
            if params.len() == 2 {
                apply_linmul(&params[0], &params[1])
            } else {
                None
            }
        },
        EvalOp::ConstantUInt(v) => {
            if params.len() == 0 {
                Some(ConstBaseVal::new_uint(v))
            } else {
                None
            }
        },
        EvalOp::ConstructScalar(base) => construct_scalar(base, params),
        EvalOp::ConstructVec(shape, base) => construct_vec(shape, base, params),
        EvalOp::ConstructMat(shape, base) => construct_mat(shape, base, params),
    }
}

/// An instance of a constant-evaluable function: an evaluator with a
/// fixed prototype, or a generic instance without one, whose
/// evaluator inspects the raw values itself.
#[derive(Debug)]
pub struct ConstEvalFunctionInstance {
    pub prototype: Option<Vec<ParameterType>>,
    pub op: EvalOp,
}

pub ghost struct InstanceView {
    pub prototype: Option<Seq<ParameterType>>,
    pub op: EvalOp,
}

impl View for ConstEvalFunctionInstance {
    type V = InstanceView;

    open spec fn view(&self) -> InstanceView {
        InstanceView {
            prototype: match &self.prototype {
                Some(p) => Some(p@),
                None => None,
            },
            op: self.op,
        }
    }
}

/// The dispatch signature of a parameter list: each argument's shape
/// and base type.
pub open spec fn spec_sig_of(params: Seq<BaseValView>) -> Seq<(BaseTypeShape, ParameterBaseType)> {
    Seq::new(
        params.len(),
        |i: int| (params[i].spec_shape(), ParameterBaseType::spec_from_const_val(params[i])),
    )
}

/// Compatibility of an instance with argument descriptors: a generic
/// instance accepts everything; a typed one demands the argument
/// count, a shape match on every position, and an implicit cast edge
/// into every prototype base type.
pub open spec fn spec_compatible(
    iv: InstanceView,
    sig: Seq<(BaseTypeShape, ParameterBaseType)>,
) -> bool {
    match iv.prototype {
        None => true,
        Some(p) => p.len() == sig.len() && (forall|i: int|
            0 <= i < p.len() ==> (#[trigger] p[i]).shape.spec_matches(sig[i].0)
                && sig[i].1.spec_can_cast_into(p[i].base_type)),
    }
}

/// Each parameter cast to the prototype's base type.
pub open spec fn spec_cast_params(params: Seq<BaseValView>, proto: Seq<ParameterType>) -> Option<
    Seq<BaseValView>,
>
    recommends
        params.len() == proto.len(),
{
    if forall|i: int|
        0 <= i < params.len() ==> (#[trigger] spec_cast_val(
            params[i],
            proto[i].base_type,
        )) is Some {
        Some(Seq::new(params.len(), |i: int| spec_cast_val(params[i], proto[i].base_type).unwrap()))
    } else {
        None
    }
}

/// What a whole instance evaluates to: a typed instance casts its
/// arguments to the prototype and runs its evaluator; a generic one
/// runs the evaluator on the raw values.
pub open spec fn spec_apply_instance(iv: InstanceView, params: Seq<BaseValView>) -> Option<
    BaseValView,
> {
    match iv.prototype {
        None => spec_apply_op(iv.op, params),
        Some(p) => if p.len() != params.len() {
            None
        } else {
            match spec_cast_params(params, p) {
                Some(cp) => spec_apply_op(iv.op, cp),
                None => None,
            }
        },
    }
}

/// A castable value always casts: where the cast lattice has an edge
/// from a value's base type, the conversion of the value is present.
pub proof fn lemma_cast_total(v: BaseValView, to: ParameterBaseType)
    requires
        ParameterBaseType::spec_from_const_val(v).spec_can_cast_into(to),
    ensures
        spec_cast_val(v, to) is Some,
{
}

/// Casting keeps well-formedness across a whole parameter list.
pub proof fn lemma_cast_params_wf(params: Seq<BaseValView>, proto: Seq<ParameterType>)
    requires
        params.len() == proto.len(),
        spec_params_wf(params),
        spec_cast_params(params, proto) is Some,
    ensures
        spec_params_wf(spec_cast_params(params, proto).unwrap()),
        spec_cast_params(params, proto).unwrap().len() == params.len(),
{
    let cp = spec_cast_params(params, proto).unwrap();
    assert forall|i: int| 0 <= i < cp.len() implies (#[trigger] cp[i]).wf() by {
        lemma_cast_val_wf(params[i], proto[i].base_type);
    }
}

impl ConstEvalFunctionInstance {
    /// A generic instance: no declared prototype; the evaluator
    /// sorts out the raw values itself.
    pub fn from_generic(op: EvalOp) -> (r: Self)
        ensures
            r@ == (InstanceView { prototype: None::<Seq<ParameterType>>, op }),
    {
        ConstEvalFunctionInstance { prototype: None, op }
    }

    /// A typed instance taking no parameters and producing a fixed
    /// unsigned scalar.
    pub fn from_fn_0(value: u32) -> (r: Self)
        ensures
            r@ == (InstanceView {
                prototype: Some(Seq::<ParameterType>::empty()),
                op: EvalOp::ConstantUInt(value),
            }),
    {
        let proto: Vec<ParameterType> = Vec::new();
        proof {
            assert(proto@ =~= Seq::<ParameterType>::empty());
        }
        ConstEvalFunctionInstance { prototype: Some(proto), op: EvalOp::ConstantUInt(value) }
    }

    /// A typed instance with one parameter.
    pub fn from_fn_1(t0: ParameterType, op: EvalOp) -> (r: Self)
        ensures
            r@ == (InstanceView { prototype: Some(seq![t0]), op }),
    {
        let mut proto: Vec<ParameterType> = Vec::new();
        proto.push(t0);
        proof {
            assert(proto@ =~= seq![t0]);
        }
        ConstEvalFunctionInstance { prototype: Some(proto), op }
    }

    /// A typed instance with two parameters.
    pub fn from_fn_2(t0: ParameterType, t1: ParameterType, op: EvalOp) -> (r: Self)
        ensures
            r@ == (InstanceView { prototype: Some(seq![t0, t1]), op }),
    {
        let mut proto: Vec<ParameterType> = Vec::new();
        proto.push(t0);
        proto.push(t1);
        proof {
            assert(proto@ =~= seq![t0, t1]);
        }
        ConstEvalFunctionInstance { prototype: Some(proto), op }
    }

    /// Checks the provided parameter descriptors against this
    /// instance's prototype, implicit casting included.
    pub fn compatible_with(&self, params: &Vec<(BaseTypeShape, ParameterBaseType)>) -> (r: bool)
        ensures
            r == spec_compatible(self@, params@),
    {
        match &self.prototype {
            None => true,
            Some(proto) => {
                if proto.len() != params.len() {
                    return false;
                }
                let mut i: usize = 0;
                while i < proto.len()
                    invariant
                        self@.prototype == Some(proto@),
                        proto@.len() == params@.len(),
                        0 <= i <= proto@.len(),
                        forall|j: int|
                            0 <= j < i as int ==> (#[trigger] proto@[j]).shape.spec_matches(
                                params@[j].0,
                            ) && params@[j].1.spec_can_cast_into(proto@[j].base_type),
                    decreases proto@.len() - i,
                {
                    if !proto[i].shape.matches(params[i].0) {
                        return false;
                    }
                    if !params[i].1.can_cast_into(&proto[i].base_type) {
                        return false;
                    }
                    i += 1;
                }
                true
            },
        }
    }

    /// Evaluates this instance on parameters its prototype accepts,
    /// casting them in first.
    pub fn eval(&self, params: &Vec<ConstBaseVal>) -> (r: Option<ConstBaseVal>)
        requires
            spec_params_wf(spec_views_of(params@)),
            spec_compatible(self@, spec_sig_of(spec_views_of(params@))),
        ensures
            opt_view(r) == spec_apply_instance(self@, spec_views_of(params@)),
    {
        let ghost views = spec_views_of(params@);
        match &self.prototype {
            None => apply_op(self.op, params),
            Some(proto) => {
                proof {
                    assert(spec_sig_of(views).len() == views.len());
                }
                let mut cast: Vec<ConstBaseVal> = Vec::new();
                let mut i: usize = 0;
                while i < params.len()
                    invariant
                        self@.prototype == Some(proto@),
                        views == spec_views_of(params@),
                        spec_params_wf(views),
                        spec_compatible(self@, spec_sig_of(views)),
                        proto@.len() == params@.len(),
                        views.len() == params@.len(),
                        0 <= i <= params@.len(),
                        cast@.len() == i as int,
                        forall|j: int|
                            0 <= j < i as int ==> spec_cast_val(
                                views[j],
                                proto@[j].base_type,
                            ) is Some,
                        forall|j: int|
                            0 <= j < i as int ==> (#[trigger] cast@[j]@) == spec_cast_val(
                                views[j],
                                proto@[j].base_type,
                            ).unwrap(),
                    decreases params@.len() - i,
                {
                    proof {
                        assert(spec_sig_of(views)[i as int] == (
                            views[i as int].spec_shape(),
                            ParameterBaseType::spec_from_const_val(views[i as int]),
                        ));
                        assert(views[i as int] == params@[i as int]@);
                        lemma_cast_total(views[i as int], proto@[i as int].base_type);
                    }
                    match cast_val(&params[i], proto[i].base_type) {
                        Some(c) => {
                            cast.push(c);
                        },
                        None => {
                            proof {
                                assert(false);
                            }
                            return None;
                        },
                    }
                    i += 1;
                }
                proof {
                    assert(forall|j: int|
                        0 <= j < views.len() ==> (#[trigger] spec_cast_val(
                            views[j],
                            proto@[j].base_type,
                        )) is Some);
                    assert(spec_views_of(cast@) =~= spec_cast_params(views, proto@).unwrap());
                    lemma_cast_params_wf(views, proto@);
                }
                apply_op(self.op, &cast)
            },
        }
    }
}

// ---------------------------------------------------------------
// The prototype comparator and the sorted overload table
// ---------------------------------------------------------------

/// Lexicographic dispatch order of two prototypes of one length.
pub open spec fn spec_proto_cmp(p1: Seq<ParameterType>, p2: Seq<ParameterType>) -> Ordering
    recommends
        p1.len() == p2.len(),
    decreases p1.len(),
{
    if p1.len() == 0 || p2.len() == 0 {
        Ordering::Equal
    } else {
        match p1.first().spec_cast_cmp(p2.first()) {
            Ordering::Equal => spec_proto_cmp(p1.drop_first(), p2.drop_first()),
            o => o,
        }
    }
}

/// Dispatch order of two instances: typed before generic, shorter
/// prototypes before longer ones, then parameter-wise by the
/// parameter type order.
pub open spec fn spec_instance_cmp(a: InstanceView, b: InstanceView) -> Ordering {
    match a.prototype {
        Some(p1) => match b.prototype {
            Some(p2) => if p1.len() != p2.len() {
                spec_ord_of_ranks(p1.len() as int, p2.len() as int)
            } else {
                spec_proto_cmp(p1, p2)
            },
            None => Ordering::Less,
        },
        None => match b.prototype {
            Some(_) => Ordering::Greater,
            None => Ordering::Equal,
        },
    }
}

/// The lexicographic order ignores an equal prefix.
proof fn lemma_proto_cmp_skip(p1: Seq<ParameterType>, p2: Seq<ParameterType>, i: int)
    requires
        p1.len() == p2.len(),
        0 <= i <= p1.len(),
        forall|j: int| 0 <= j < i ==> #[trigger] p1[j].spec_cast_cmp(p2[j]) == Ordering::Equal,
    ensures
        spec_proto_cmp(p1, p2) == spec_proto_cmp(p1.skip(i), p2.skip(i)),
    decreases i,
{
    if i == 0 {
        assert(p1.skip(0) =~= p1);
        assert(p2.skip(0) =~= p2);
    } else {
        assert(p1.first().spec_cast_cmp(p2.first()) == Ordering::Equal);
        assert(forall|j: int|
            0 <= j < i - 1 ==> #[trigger] p1.drop_first()[j].spec_cast_cmp(p2.drop_first()[j])
                == p1[j + 1].spec_cast_cmp(p2[j + 1]));
        lemma_proto_cmp_skip(p1.drop_first(), p2.drop_first(), i - 1);
        assert(p1.drop_first().skip(i - 1) =~= p1.skip(i));
        assert(p2.drop_first().skip(i - 1) =~= p2.skip(i));
    }
}

/// The prototype order is antisymmetric: swapping the operands
/// reverses the comparison.
pub proof fn lemma_proto_cmp_antisymmetric(p1: Seq<ParameterType>, p2: Seq<ParameterType>)
    requires
        p1.len() == p2.len(),
    ensures
        spec_proto_cmp(p1, p2) == spec_reverse(spec_proto_cmp(p2, p1)),
    decreases p1.len(),
{
    if p1.len() > 0 {
        lemma_param_type_cmp_antisymmetric(p1.first(), p2.first());
        lemma_proto_cmp_antisymmetric(p1.drop_first(), p2.drop_first());
    }
}

/// The prototype order is transitive over its non-strict form.
pub proof fn lemma_proto_cmp_transitive(
    p1: Seq<ParameterType>,
    p2: Seq<ParameterType>,
    p3: Seq<ParameterType>,
)
    requires
        p1.len() == p2.len(),
        p2.len() == p3.len(),
        spec_proto_cmp(p1, p2) != Ordering::Greater,
        spec_proto_cmp(p2, p3) != Ordering::Greater,
    ensures
        spec_proto_cmp(p1, p3) != Ordering::Greater,
    decreases p1.len(),
{
    if p1.len() > 0 {
        let a = p1.first();
        let b = p2.first();
        let c = p3.first();
        lemma_param_type_cmp_antisymmetric(a, b);
        lemma_param_type_cmp_antisymmetric(b, c);
        lemma_param_type_cmp_antisymmetric(a, c);
        lemma_param_type_cmp_transitive(a, b, c);
        if a.spec_cast_cmp(b) == Ordering::Equal && b.spec_cast_cmp(c) == Ordering::Equal {
            lemma_proto_cmp_transitive(p1.drop_first(), p2.drop_first(), p3.drop_first());
        } else if a.spec_cast_cmp(b) == Ordering::Equal {
            assert(a == b);
        } else if b.spec_cast_cmp(c) == Ordering::Equal {
            assert(b == c);
        }
    }
}

/// The instance order is antisymmetric: swapping the operands
/// reverses the result. This is the consistency law of the overload
/// ordering.
pub proof fn lemma_instance_cmp_antisymmetric(a: InstanceView, b: InstanceView)
    ensures
        spec_instance_cmp(a, b) == spec_reverse(spec_instance_cmp(b, a)),
{
    match (a.prototype, b.prototype) {
        (Some(p1), Some(p2)) => {
            if p1.len() == p2.len() {
                lemma_proto_cmp_antisymmetric(p1, p2);
            }
        },
        _ => {},
    }
}

/// The instance order is transitive over its non-strict form.
pub proof fn lemma_instance_cmp_transitive(a: InstanceView, b: InstanceView, c: InstanceView)
    requires
        spec_instance_cmp(a, b) != Ordering::Greater,
        spec_instance_cmp(b, c) != Ordering::Greater,
    ensures
        spec_instance_cmp(a, c) != Ordering::Greater,
{
    match (a.prototype, b.prototype, c.prototype) {
        (Some(p1), Some(p2), Some(p3)) => {
            if p1.len() == p2.len() && p2.len() == p3.len() {
                lemma_proto_cmp_transitive(p1, p2, p3);
            }
        },
        _ => {},
    }
}

impl ConstEvalFunctionInstance {
    /// The dispatch order on instances: a prototype that accepts
    /// narrower arguments sorts first, and generic instances sort
    /// after every typed one, so that a linear scan of a sorted
    /// table meets the best matching overload first.
    pub fn cast_cmp(&self, other: &Self) -> (r: Ordering)
        ensures
            r == spec_instance_cmp(self@, other@),
    {
        match (&self.prototype, &other.prototype) {
            (Some(p1), Some(p2)) => {
                if p1.len() != p2.len() {
                    if p1.len() < p2.len() {
                        Ordering::Less
                    } else {
                        Ordering::Greater
                    }
                } else {
                    let mut i: usize = 0;
                    while i < p1.len()
                        invariant
                            self@.prototype == Some(p1@),
                            other@.prototype == Some(p2@),
                            p1@.len() == p2@.len(),
                            0 <= i <= p1@.len(),
                            forall|j: int|
                                0 <= j < i as int ==> #[trigger] p1@[j].spec_cast_cmp(p2@[j])
                                    == Ordering::Equal,
                        decreases p1@.len() - i,
                    {
                        let o = p1[i].cast_cmp(&p2[i]);
                        match o {
                            Ordering::Equal => {},
                            _ => {
                                proof {
                                    lemma_proto_cmp_skip(p1@, p2@, i as int);
                                    assert(p1@.skip(i as int).first() == p1@[i as int]);
                                    assert(p2@.skip(i as int).first() == p2@[i as int]);
                                }
                                return o;
                            },
                        }
                        i += 1;
                    }
                    proof {
                        lemma_proto_cmp_skip(p1@, p2@, p1@.len() as int);
                    }
                    Ordering::Equal
                }
            },
            (None, Some(_)) => Ordering::Greater,
            (Some(_), None) => Ordering::Less,
            (None, None) => Ordering::Equal,
        }
    }
}

/// A table whose instances appear in ascending dispatch order.
pub open spec fn spec_sorted(s: Seq<InstanceView>) -> bool {
    forall|i: int, j: int|
        0 <= i < j < s.len() ==> spec_instance_cmp(#[trigger] s[i], #[trigger] s[j])
            != Ordering::Greater
}

/// The position a new instance takes in a sorted table: after every
/// instance it does not strictly precede.
pub open spec fn spec_insert_pos(s: Seq<InstanceView>, x: InstanceView) -> int
    decreases s.len(),
{
    if s.len() == 0 {
        0
    } else if spec_instance_cmp(s.first(), x) == Ordering::Greater {
        0
    } else {
        1 + spec_insert_pos(s.drop_first(), x)
    }
}

pub open spec fn spec_insert_one(s: Seq<InstanceView>, x: InstanceView) -> Seq<InstanceView> {
    s.insert(spec_insert_pos(s, x), x)
}

/// Stable insertion sort of the overload table by dispatch order.
pub open spec fn spec_sort(s: Seq<InstanceView>) -> Seq<InstanceView>
    decreases s.len(),
{
    if s.len() == 0 {
        Seq::empty()
    } else {
        spec_insert_one(spec_sort(s.drop_last()), s.last())
    }
}

proof fn lemma_insert_pos_bounds(s: Seq<InstanceView>, x: InstanceView)
    ensures
        0 <= spec_insert_pos(s, x) <= s.len(),
    decreases s.len(),
{
    if s.len() > 0 {
        lemma_insert_pos_bounds(s.drop_first(), x);
    }
}

/// Everything before the insertion position does not strictly
/// follow the new instance, and everything at or after it does.
proof fn lemma_insert_pos_split(s: Seq<InstanceView>, x: InstanceView)
    requires
        spec_sorted(s),
    ensures
        0 <= spec_insert_pos(s, x) <= s.len(),
        forall|j: int|
            0 <= j < spec_insert_pos(s, x) ==> spec_instance_cmp(#[trigger] s[j], x)
                != Ordering::Greater,
        forall|j: int|
            spec_insert_pos(s, x) <= j < s.len() ==> spec_instance_cmp(#[trigger] s[j], x)
                == Ordering::Greater,
    decreases s.len(),
{
    lemma_insert_pos_bounds(s, x);
    if s.len() > 0 {
        let t = s.drop_first();
        assert(forall|j: int| 0 <= j < t.len() ==> #[trigger] t[j] == s[j + 1]);
        assert(spec_sorted(t)) by {
            assert(forall|i: int, j: int|
                0 <= i < j < t.len() ==> spec_instance_cmp(#[trigger] t[i], #[trigger] t[j])
                    == spec_instance_cmp(s[i + 1], s[j + 1]));
        }
        if spec_instance_cmp(s.first(), x) == Ordering::Greater {
            // the head already follows x, and by sortedness so does the rest
            assert forall|j: int| 0 <= j < s.len() implies spec_instance_cmp(
                #[trigger] s[j],
                x,
            ) == Ordering::Greater by {
                if j > 0 {
                    lemma_instance_cmp_antisymmetric(s[0], s[j]);
                    lemma_instance_cmp_antisymmetric(s[0], x);
                    lemma_instance_cmp_antisymmetric(s[j], x);
                    if spec_instance_cmp(s[j], x) != Ordering::Greater {
                        lemma_instance_cmp_transitive(s[0], s[j], x);
                    }
                }
            }
        } else {
            lemma_insert_pos_split(t, x);
            let pos = spec_insert_pos(s, x);
            assert(pos == 1 + spec_insert_pos(t, x));
            assert forall|j: int| 0 <= j < pos implies spec_instance_cmp(
                #[trigger] s[j],
                x,
            ) != Ordering::Greater by {
                if j > 0 {
                    assert(s[j] == t[j - 1]);
                }
            }
            assert forall|j: int| pos <= j < s.len() implies spec_instance_cmp(
                #[trigger] s[j],
                x,
            ) == Ordering::Greater by {
                assert(s[j] == t[j - 1]);
            }
        }
    }
}

/// Inserting at the computed position keeps the table sorted.
proof fn lemma_insert_one_sorted(s: Seq<InstanceView>, x: InstanceView)
    requires
        spec_sorted(s),
    ensures
        spec_sorted(spec_insert_one(s, x)),
        spec_insert_one(s, x).len() == s.len() + 1,
{
    lemma_insert_pos_split(s, x);
    let pos = spec_insert_pos(s, x);
    let out = s.insert(pos, x);
    assert forall|i: int, j: int| 0 <= i < j < out.len() implies spec_instance_cmp(
        #[trigger] out[i],
        #[trigger] out[j],
    ) != Ordering::Greater by {
        if i < pos && j < pos {
            assert(out[i] == s[i] && out[j] == s[j]);
        } else if i < pos && j == pos {
            assert(out[i] == s[i] && out[j] == x);
        } else if i < pos && j > pos {
            assert(out[i] == s[i] && out[j] == s[j - 1]);
        } else if i == pos && j > pos {
            assert(out[i] == x && out[j] == s[j - 1]);
            lemma_instance_cmp_antisymmetric(s[j - 1], x);
        } else if i > pos && j > pos {
            assert(out[i] == s[i - 1] && out[j] == s[j - 1]);
        }
    }
}

/// The sorted table is sorted, and keeps the element count.
pub proof fn lemma_sort_sorted(s: Seq<InstanceView>)
    ensures
        spec_sorted(spec_sort(s)),
        spec_sort(s).len() == s.len(),
    decreases s.len(),
{
    if s.len() > 0 {
        lemma_sort_sorted(s.drop_last());
        lemma_insert_one_sorted(spec_sort(s.drop_last()), s.last());
    }
}

proof fn lemma_insert_pos_hit(s: Seq<InstanceView>, x: InstanceView, j: int)
    requires
        0 <= j < s.len(),
        forall|k: int| 0 <= k < j ==> spec_instance_cmp(#[trigger] s[k], x) != Ordering::Greater,
        spec_instance_cmp(s[j], x) == Ordering::Greater,
    ensures
        spec_insert_pos(s, x) == j,
    decreases s.len(),
{
    if j > 0 {
        let t = s.drop_first();
        assert(forall|k: int| 0 <= k < t.len() ==> #[trigger] t[k] == s[k + 1]);
        lemma_insert_pos_hit(t, x, j - 1);
    }
}

proof fn lemma_insert_pos_end(s: Seq<InstanceView>, x: InstanceView)
    requires
        forall|k: int|
            0 <= k < s.len() ==> spec_instance_cmp(#[trigger] s[k], x) != Ordering::Greater,
    ensures
        spec_insert_pos(s, x) == s.len(),
    decreases s.len(),
{
    if s.len() > 0 {
        let t = s.drop_first();
        assert(forall|k: int| 0 <= k < t.len() ==> #[trigger] t[k] == s[k + 1]);
        lemma_insert_pos_end(t, x);
    }
}

/// A constant-evaluable function: its overload instances in
/// ascending dispatch order.
#[derive(Debug)]
pub struct ConstEvalFunction {
    pub overloads: Vec<ConstEvalFunctionInstance>,
}

impl View for ConstEvalFunction {
    type V = Seq<InstanceView>;

    open spec fn view(&self) -> Seq<InstanceView> {
        Seq::new(self.overloads@.len(), |i: int| self.overloads@[i]@)
    }
}

impl ConstEvalFunction {
    pub open spec fn wf(&self) -> bool {
        spec_sorted(self@)
    }
}

/// Builds a constant-evaluable function by collecting overload
/// instances; `build` sorts them once into dispatch order.
#[derive(Debug)]
pub struct ConstEvalFunctionBuilder {
    pub overloads: Vec<ConstEvalFunctionInstance>,
}

pub open spec fn spec_views_of_instances(s: Seq<ConstEvalFunctionInstance>) -> Seq<InstanceView> {
    Seq::new(s.len(), |i: int| s[i]@)
}

impl ConstEvalFunctionBuilder {
    pub fn new() -> (r: Self)
        ensures
            spec_views_of_instances(r.overloads@) =~= Seq::<InstanceView>::empty(),
    {
        ConstEvalFunctionBuilder { overloads: Vec::new() }
    }

    /// Adds a generic overload, evaluated on the raw values.
    pub fn add_generic(self, op: EvalOp) -> (r: Self)
        ensures
            spec_views_of_instances(r.overloads@) =~= spec_views_of_instances(
                self.overloads@,
            ).push((InstanceView { prototype: None::<Seq<ParameterType>>, op })),
    {
        let mut this = self;
        this.overloads.push(ConstEvalFunctionInstance::from_generic(op));
        proof {
            assert(spec_views_of_instances(this.overloads@) =~= spec_views_of_instances(
                self.overloads@,
            ).push((InstanceView { prototype: None::<Seq<ParameterType>>, op })));
        }
        this
    }

    /// Adds an overload taking no parameters.
    pub fn add_overload_0(self, value: u32) -> (r: Self)
        ensures
            spec_views_of_instances(r.overloads@) =~= spec_views_of_instances(
                self.overloads@,
            ).push(
                (InstanceView {
                    prototype: Some(Seq::<ParameterType>::empty()),
                    op: EvalOp::ConstantUInt(value),
                }),
            ),
    {
        let mut this = self;
        this.overloads.push(ConstEvalFunctionInstance::from_fn_0(value));
        proof {
            assert(spec_views_of_instances(this.overloads@) =~= spec_views_of_instances(
                self.overloads@,
            ).push(
                (InstanceView {
                    prototype: Some(Seq::<ParameterType>::empty()),
                    op: EvalOp::ConstantUInt(value),
                }),
            ));
        }
        this
    }

    /// Adds an overload taking one parameter. An absent result of
    /// the evaluator is no error: the dispatcher keeps searching for
    /// a matching overload.
    pub fn add_overload_1(self, t0: ParameterType, op: EvalOp) -> (r: Self)
        ensures
            spec_views_of_instances(r.overloads@) =~= spec_views_of_instances(
                self.overloads@,
            ).push((InstanceView { prototype: Some(seq![t0]), op })),
    {
        let mut this = self;
        this.overloads.push(ConstEvalFunctionInstance::from_fn_1(t0, op));
        proof {
            assert(spec_views_of_instances(this.overloads@) =~= spec_views_of_instances(
                self.overloads@,
            ).push((InstanceView { prototype: Some(seq![t0]), op })));
        }
        this
    }

    /// Adds an overload taking two parameters.
    pub fn add_overload_2(self, t0: ParameterType, t1: ParameterType, op: EvalOp) -> (r: Self)
        ensures
            spec_views_of_instances(r.overloads@) =~= spec_views_of_instances(
                self.overloads@,
            ).push((InstanceView { prototype: Some(seq![t0, t1]), op })),
    {
        let mut this = self;
        this.overloads.push(ConstEvalFunctionInstance::from_fn_2(t0, t1, op));
        proof {
            assert(spec_views_of_instances(this.overloads@) =~= spec_views_of_instances(
                self.overloads@,
            ).push((InstanceView { prototype: Some(seq![t0, t1]), op })));
        }
        this
    }

    /// Sorts the collected overloads into dispatch order.
    pub fn build(self) -> (r: ConstEvalFunction)
        ensures
            r@ == spec_sort(spec_views_of_instances(self.overloads@)),
            r.wf(),
    {
        let ghost input = spec_views_of_instances(self.overloads@);
        let mut rest = self.overloads;
        let mut sorted: Vec<ConstEvalFunctionInstance> = Vec::new();
        let ghost total = input.len();
        proof {
            assert(input.take(0) =~= Seq::<InstanceView>::empty());
            lemma_sort_sorted(input.take(0));
        }
        while rest.len() > 0
            invariant
                input.len() == total,
                sorted@.len() + rest@.len() == total,
                forall|k: int|
                    0 <= k < rest@.len() ==> (#[trigger] rest@[k]@) == input[sorted@.len() + k],
                spec_views_of_instances(sorted@) == spec_sort(input.take(sorted@.len() as int)),
                spec_sorted(spec_views_of_instances(sorted@)),
            decreases rest@.len(),
        {
            let ghost done = sorted@.len() as int;
            let x = rest.remove(0);
            let ghost svs = spec_views_of_instances(sorted@);
            // find the insertion position
            let mut pos: usize = 0;
            let mut found = false;
            while pos < sorted.len() && !found
                invariant
                    svs == spec_views_of_instances(sorted@),
                    0 <= pos <= sorted@.len(),
                    svs.len() == sorted@.len(),
                    forall|k: int|
                        0 <= k < pos as int ==> spec_instance_cmp(#[trigger] svs[k], x@)
                            != Ordering::Greater,
                    found ==> pos < sorted@.len() && spec_instance_cmp(svs[pos as int], x@)
                        == Ordering::Greater,
                decreases sorted@.len() - pos + (if found { 0int } else { 1int }),
            {
                let o = sorted[pos].cast_cmp(&x);
                match o {
                    Ordering::Greater => {
                        found = true;
                    },
                    _ => {
                        pos += 1;
                    },
                }
            }
            proof {
                if found {
                    lemma_insert_pos_hit(svs, x@, pos as int);
                } else {
                    lemma_insert_pos_end(svs, x@);
                }
            }
            sorted.insert(pos, x);
            proof {
                assert(spec_views_of_instances(sorted@) =~= svs.insert(pos as int, x@));
                assert(input.take(done + 1).drop_last() =~= input.take(done));
                assert(input.take(done + 1).last() == input[done]);
                lemma_insert_one_sorted(svs, x@);
            }
        }
        proof {
            assert(input.take(total as int) =~= input);
        }
        ConstEvalFunction { overloads: sorted }
    }
}

// ---------------------------------------------------------------
// Dispatch
// ---------------------------------------------------------------

/// The first-match rule: walking the overloads in ascending order,
/// the result is the first present evaluation among the compatible
/// instances; absent where none matches.
pub open spec fn spec_eval_function(overloads: Seq<InstanceView>, params: Seq<BaseValView>) -> Option<
    BaseValView,
>
    decreases overloads.len(),
{
    if overloads.len() == 0 {
        None
    } else if spec_compatible(overloads.first(), spec_sig_of(params)) && spec_apply_instance(
        overloads.first(),
        params,
    ) is Some {
        spec_apply_instance(overloads.first(), params)
    } else {
        spec_eval_function(overloads.drop_first(), params)
    }
}

impl ConstEvalFunction {
    /// Evaluates the function on the provided parameters: the first
    /// present result of a compatible overload in dispatch order, or
    /// nothing where no overload matches.
    pub fn eval(&self, params: &Vec<ConstBaseVal>) -> (r: Option<ConstBaseVal>)
        requires
            spec_params_wf(spec_views_of(params@)),
        ensures
            opt_view(r) == spec_eval_function(self@, spec_views_of(params@)),
    {
        let ghost views = spec_views_of(params@);
        let mut types: Vec<(BaseTypeShape, ParameterBaseType)> = Vec::new();
        let mut i: usize = 0;
        while i < params.len()
            invariant
                views == spec_views_of(params@),
                views.len() == params@.len(),
                0 <= i <= params@.len(),
                types@.len() == i as int,
                forall|j: int|
                    0 <= j < i as int ==> types@[j] == (
                        views[j].spec_shape(),
                        ParameterBaseType::spec_from_const_val(views[j]),
                    ),
            decreases params@.len() - i,
        {
            types.push((params[i].get_shape(), ParameterBaseType::from_const_val(&params[i])));
            i += 1;
        }
        proof {
            assert(types@ =~= spec_sig_of(views));
            assert(self@.skip(0) =~= self@);
        }
        let mut k: usize = 0;
        while k < self.overloads.len()
            invariant
                views == spec_views_of(params@),
                spec_params_wf(views),
                types@ == spec_sig_of(views),
                self@.len() == self.overloads@.len(),
                0 <= k <= self.overloads@.len(),
                forall|j: int| 0 <= j < self@.len() ==> (#[trigger] self@[j]) == self.overloads@[j]@,
                spec_eval_function(self@.skip(k as int), views) == spec_eval_function(
                    self@,
                    views,
                ),
            decreases self.overloads@.len() - k,
        {
            proof {
                assert(self@.skip(k as int).first() == self@[k as int]);
                assert(self@.skip(k as int).drop_first() =~= self@.skip(k as int + 1));
            }
            if self.overloads[k].compatible_with(&types) {
                match self.overloads[k].eval(params) {
                    Some(result) => {
                        return Some(result);
                    },
                    None => {},
                }
            }
            k += 1;
        }
        proof {
            assert(self@.skip(self@.len() as int) =~= Seq::<InstanceView>::empty());
        }
        None
    }
}

/// The narrowest-match guarantee of the dispatcher: in a sorted
/// table, where two instances are both compatible with the
/// arguments and the first strictly precedes the second in the
/// dispatch order, the first stands earlier in the table, and where
/// its evaluation is present the dispatcher's result is settled
/// without ever consulting the second.
pub proof fn lemma_dispatcher_narrowest_match(
    f: Seq<InstanceView>,
    params: Seq<BaseValView>,
    i: int,
    j: int,
)
    requires
        spec_sorted(f),
        0 <= i < f.len(),
        0 <= j < f.len(),
        spec_instance_cmp(f[i], f[j]) == Ordering::Less,
        spec_compatible(f[i], spec_sig_of(params)),
        spec_compatible(f[j], spec_sig_of(params)),
        spec_apply_instance(f[i], params) is Some,
    ensures
        i < j,
        spec_eval_function(f, params) is Some,
        spec_eval_function(f, params) == spec_eval_function(f.take(j), params),
{
    lemma_instance_cmp_antisymmetric(f[i], f[j]);
    assert(i < j) by {
        if j < i {
            assert(spec_instance_cmp(f[j], f[i]) != Ordering::Greater);
        }
        if i == j {
            assert(spec_instance_cmp(f[i], f[j]) == spec_reverse(spec_instance_cmp(f[i], f[j])));
        }
    }
    lemma_eval_function_settled(f, params, i);
    lemma_eval_function_prefix(f, params, i, j);
}

/// Where some instance at or before `m` is compatible and presents
/// a result, the whole dispatch presents a result.
proof fn lemma_eval_function_settled(f: Seq<InstanceView>, params: Seq<BaseValView>, m: int)
    requires
        0 <= m < f.len(),
        spec_compatible(f[m], spec_sig_of(params)),
        spec_apply_instance(f[m], params) is Some,
    ensures
        spec_eval_function(f, params) is Some,
    decreases f.len(),
{
    if f.len() > 0 {
        if spec_compatible(f.first(), spec_sig_of(params)) && spec_apply_instance(
            f.first(),
            params,
        ) is Some {
        } else {
            assert(m > 0);
            assert(f.drop_first()[m - 1] == f[m]);
            lemma_eval_function_settled(f.drop_first(), params, m - 1);
        }
    }
}

/// Where some instance strictly before `j` is compatible and
/// presents a result, the dispatch never looks at position `j` or
/// beyond: the result over the whole table equals the result over
/// the prefix.
proof fn lemma_eval_function_prefix(f: Seq<InstanceView>, params: Seq<BaseValView>, m: int, j: int)
    requires
        0 <= m < j <= f.len(),
        spec_compatible(f[m], spec_sig_of(params)),
        spec_apply_instance(f[m], params) is Some,
    ensures
        spec_eval_function(f, params) == spec_eval_function(f.take(j), params),
    decreases f.len(),
{
    if spec_compatible(f.first(), spec_sig_of(params)) && spec_apply_instance(
        f.first(),
        params,
    ) is Some {
        assert(f.take(j).first() == f.first());
    } else {
        assert(f.take(j).first() == f.first());
        assert(f.take(j).drop_first() =~= f.drop_first().take(j - 1));
        if m > 0 {
            assert(f.drop_first()[m - 1] == f[m]);
            lemma_eval_function_prefix(f.drop_first(), params, m - 1, j - 1);
        } else {
            assert(false);
        }
    }
}

/// Every value an evaluator presents is well formed, given well
/// formed parameters.
pub proof fn lemma_apply_op_wf(op: EvalOp, params: Seq<BaseValView>)
    requires
        spec_params_wf(params),
    ensures
        match spec_apply_op(op, params) {
            Some(r) => r.wf(),
            None => true,
        },
{
    if spec_apply_op(op, params) is Some {
        let r = spec_apply_op(op, params).unwrap();
        match op {
            EvalOp::Unary(u) => {
                assert(params[0].wf());
            },
            EvalOp::Binary(b) => {
                assert(params[0].wf());
                assert(params[1].wf());
            },
            EvalOp::Compare(c) => {
            },
            EvalOp::EqualFold => {
            },
            EvalOp::Shift(d) => {
                assert(params[0].wf());
            },
            EvalOp::LinMul => {
                assert(params[0].wf());
                assert(params[1].wf());
                crate::shape::lemma_width_rows_cols(params[0].spec_shape());
                crate::shape::lemma_width_rows_cols(params[1].spec_shape());
            },
            EvalOp::ConstantUInt(v) => {
            },
            EvalOp::ConstructScalar(base) => {
            },
            EvalOp::ConstructVec(shape, base) => {
            },
            EvalOp::ConstructMat(shape, base) => {
                crate::shape::lemma_width_rows_cols(shape);
            },
        }
    }
}

/// Every value a whole instance presents is well formed.
pub proof fn lemma_apply_instance_wf(iv: InstanceView, params: Seq<BaseValView>)
    requires
        spec_params_wf(params),
    ensures
        match spec_apply_instance(iv, params) {
            Some(r) => r.wf(),
            None => true,
        },
{
    match iv.prototype {
        None => {
            lemma_apply_op_wf(iv.op, params);
        },
        Some(p) => {
            if p.len() == params.len() && spec_cast_params(params, p) is Some {
                lemma_cast_params_wf(params, p);
                lemma_apply_op_wf(iv.op, spec_cast_params(params, p).unwrap());
            }
        },
    }
}

/// Every value the dispatcher presents is well formed.
pub proof fn lemma_eval_function_wf(overloads: Seq<InstanceView>, params: Seq<BaseValView>)
    requires
        spec_params_wf(params),
    ensures
        match spec_eval_function(overloads, params) {
            Some(r) => r.wf(),
            None => true,
        },
    decreases overloads.len(),
{
    if overloads.len() > 0 {
        lemma_apply_instance_wf(overloads.first(), params);
        lemma_eval_function_wf(overloads.drop_first(), params);
    }
}

// ---------------------------------------------------------------
// Symmetry of equality dispatch
// ---------------------------------------------------------------

/// An equality-shaped instance: the fold-equality evaluator behind
/// a prototype taking the same parameter type twice, or behind no
/// prototype at all.
pub open spec fn spec_equality_instance(iv: InstanceView) -> bool {
    &&& iv.op == EvalOp::EqualFold
    &&& match iv.prototype {
        None => true,
        Some(p) => p.len() == 2 && p[0] == p[1],
    }
}

/// Compatibility of an equality-shaped instance is unchanged by
/// swapping the two arguments.
proof fn lemma_instance_equal_compat_symmetric(iv: InstanceView, a: BaseValView, b: BaseValView)
    requires
        spec_equality_instance(iv),
    ensures
        spec_compatible(iv, spec_sig_of(seq![a, b])) == spec_compatible(iv, spec_sig_of(seq![b, a])),
{
    let ab = seq![a, b];
    let ba = seq![b, a];
    match iv.prototype {
        None => {},
        Some(p) => {
            assert(spec_sig_of(ab)[0] == spec_sig_of(ba)[1]);
            assert(spec_sig_of(ab)[1] == spec_sig_of(ba)[0]);
            assert(p[0] == p[1]);
            if spec_compatible(iv, spec_sig_of(ab)) {
                assert forall|i: int|
                    0 <= i < p.len() implies (#[trigger] p[i]).shape.spec_matches(
                    spec_sig_of(ba)[i].0,
                ) && spec_sig_of(ba)[i].1.spec_can_cast_into(p[i].base_type) by {
                    if i == 0 {
                        assert(p[1].shape.spec_matches(spec_sig_of(ab)[1].0));
                        assert(spec_sig_of(ab)[1].1.spec_can_cast_into(p[1].base_type));
                    } else {
                        assert(p[0].shape.spec_matches(spec_sig_of(ab)[0].0));
                        assert(spec_sig_of(ab)[0].1.spec_can_cast_into(p[0].base_type));
                    }
                }
            }
            if spec_compatible(iv, spec_sig_of(ba)) {
                assert forall|i: int|
                    0 <= i < p.len() implies (#[trigger] p[i]).shape.spec_matches(
                    spec_sig_of(ab)[i].0,
                ) && spec_sig_of(ab)[i].1.spec_can_cast_into(p[i].base_type) by {
                    if i == 0 {
                        assert(p[1].shape.spec_matches(spec_sig_of(ba)[1].0));
                        assert(spec_sig_of(ba)[1].1.spec_can_cast_into(p[1].base_type));
                    } else {
                        assert(p[0].shape.spec_matches(spec_sig_of(ba)[0].0));
                        assert(spec_sig_of(ba)[0].1.spec_can_cast_into(p[0].base_type));
                    }
                }
            }
        },
    }
}

/// An equality-shaped instance evaluates to the same result with
/// its two arguments swapped.
#[verifier::rlimit(100)]
#[verifier::spinoff_prover]
proof fn lemma_instance_equal_apply_symmetric(iv: InstanceView, a: BaseValView, b: BaseValView)
    requires
        spec_equality_instance(iv),
        a.wf(),
        b.wf(),
    ensures
        spec_apply_instance(iv, seq![a, b]) == spec_apply_instance(iv, seq![b, a]),
{
    let ab = seq![a, b];
    let ba = seq![b, a];
    match iv.prototype {
        None => {
            crate::ops::lemma_apply_equal_symmetric(a, b);
            assert(spec_apply_op(iv.op, ab) == spec_apply_equal(a, b));
            assert(spec_apply_op(iv.op, ba) == spec_apply_equal(b, a));
        },
        Some(p) => {
            let t = p[0].base_type;
            assert(p[1] == p[0]);
            if spec_cast_val(a, t) is Some && spec_cast_val(b, t) is Some {
                assert(spec_cast_params(ab, p) is Some) by {
                    assert(forall|i: int|
                        0 <= i < ab.len() ==> (#[trigger] spec_cast_val(
                            ab[i],
                            p[i].base_type,
                        )) is Some);
                }
                assert(spec_cast_params(ba, p) is Some) by {
                    assert(forall|i: int|
                        0 <= i < ba.len() ==> (#[trigger] spec_cast_val(
                            ba[i],
                            p[i].base_type,
                        )) is Some);
                }
                let ca = spec_cast_val(a, t).unwrap();
                let cb = spec_cast_val(b, t).unwrap();
                let cab = spec_cast_params(ab, p).unwrap();
                let cba = spec_cast_params(ba, p).unwrap();
                assert(cab =~= seq![ca, cb]);
                assert(cba =~= seq![cb, ca]);
                lemma_cast_val_wf(a, t);
                lemma_cast_val_wf(b, t);
                crate::ops::lemma_apply_equal_symmetric(ca, cb);
                assert(spec_apply_op(iv.op, cab) == spec_apply_equal(ca, cb));
                assert(spec_apply_op(iv.op, cba) == spec_apply_equal(cb, ca));
            } else {
                assert(spec_cast_params(ab, p) is None) by {
                    if spec_cast_val(a, t) is Some {
                        assert(!(spec_cast_val(ab[1], p[1].base_type) is Some));
                    } else {
                        assert(!(spec_cast_val(ab[0], p[0].base_type) is Some));
                    }
                }
                assert(spec_cast_params(ba, p) is None) by {
                    if spec_cast_val(a, t) is Some {
                        assert(!(spec_cast_val(ba[0], p[0].base_type) is Some));
                    } else {
                        assert(!(spec_cast_val(ba[1], p[1].base_type) is Some));
                    }
                }
            }
        },
    }
}

/// A table of equality-shaped instances dispatches symmetrically.
proof fn lemma_eval_equal_table_symmetric(f: Seq<InstanceView>, a: BaseValView, b: BaseValView)
    requires
        forall|k: int| 0 <= k < f.len() ==> spec_equality_instance(#[trigger] f[k]),
        a.wf(),
        b.wf(),
    ensures
        spec_eval_function(f, seq![a, b]) == spec_eval_function(f, seq![b, a]),
    decreases f.len(),
{
    if f.len() > 0 {
        lemma_instance_equal_compat_symmetric(f.first(), a, b);
        lemma_instance_equal_apply_symmetric(f.first(), a, b);
        assert(forall|k: int|
            0 <= k < f.drop_first().len() ==> spec_equality_instance(
                #[trigger] f.drop_first()[k],
            )) by {
            assert(forall|k: int|
                0 <= k < f.drop_first().len() ==> #[trigger] f.drop_first()[k] == f[k + 1]);
        }
        lemma_eval_equal_table_symmetric(f.drop_first(), a, b);
    }
}

/// Sorting a table of equality-shaped instances leaves every
/// instance equality-shaped.
proof fn lemma_insert_one_preserves_equality_shape(s: Seq<InstanceView>, x: InstanceView)
    requires
        forall|k: int| 0 <= k < s.len() ==> spec_equality_instance(#[trigger] s[k]),
        spec_equality_instance(x),
    ensures
        forall|k: int|
            0 <= k < spec_insert_one(s, x).len() ==> spec_equality_instance(
                #[trigger] spec_insert_one(s, x)[k],
            ),
{
    lemma_insert_pos_bounds(s, x);
    let pos = spec_insert_pos(s, x);
    let out = s.insert(pos, x);
    assert forall|k: int| 0 <= k < out.len() implies spec_equality_instance(
        #[trigger] out[k],
    ) by {
        if k < pos {
            assert(out[k] == s[k]);
        } else if k == pos {
            assert(out[k] == x);
        } else {
            assert(out[k] == s[k - 1]);
        }
    }
}

proof fn lemma_sort_preserves_equality_shape(s: Seq<InstanceView>)
    requires
        forall|k: int| 0 <= k < s.len() ==> spec_equality_instance(#[trigger] s[k]),
    ensures
        forall|k: int|
            0 <= k < spec_sort(s).len() ==> spec_equality_instance(#[trigger] spec_sort(s)[k]),
    decreases s.len(),
{
    if s.len() > 0 {
        assert(forall|k: int|
            0 <= k < s.drop_last().len() ==> spec_equality_instance(
                #[trigger] s.drop_last()[k],
            ));
        lemma_sort_preserves_equality_shape(s.drop_last());
        lemma_insert_one_preserves_equality_shape(spec_sort(s.drop_last()), s.last());
    }
}

/// The equality operator dispatches symmetrically over any table of
/// equality-shaped instances obtained by sorting such a list; the
/// built-in equality table is one.
pub proof fn lemma_equal_dispatch_symmetric(f: Seq<InstanceView>, a: BaseValView, b: BaseValView)
    requires
        exists|s: Seq<InstanceView>|
            f == spec_sort(s) && (forall|k: int|
                0 <= k < s.len() ==> spec_equality_instance(#[trigger] s[k])),
        a.wf(),
        b.wf(),
    ensures
        spec_eval_function(f, seq![a, b]) == spec_eval_function(f, seq![b, a]),
{
    let s = choose|s: Seq<InstanceView>|
        f == spec_sort(s) && (forall|k: int|
            0 <= k < s.len() ==> spec_equality_instance(#[trigger] s[k]));
    lemma_sort_preserves_equality_shape(s);
    lemma_eval_equal_table_symmetric(f, a, b);
}

/// Sorting a single-instance table returns it unchanged.
pub proof fn lemma_sort_singleton(x: InstanceView)
    ensures
        spec_sort(seq![x]) == seq![x],
{
    let s = seq![x];
    assert(s.drop_last() =~= Seq::<InstanceView>::empty());
    assert(spec_sort(s.drop_last()) =~= Seq::<InstanceView>::empty());
    assert(spec_insert_pos(Seq::<InstanceView>::empty(), x) == 0);
    assert(Seq::<InstanceView>::empty().insert(0, x) =~= seq![x]);
}

} // verus!
