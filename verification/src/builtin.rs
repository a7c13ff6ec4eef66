use vstd::prelude::*;
use crate::shape::BaseTypeShape;
use crate::scalar::{F32Bits, F64Bits, F32_ONE_BITS, F64_ONE_BITS};
use crate::scalar::{spec_single_eq, spec_double_eq, single_eq, double_eq};
use crate::scalar::{single_of_i32, single_of_u32, spec_single_of_double, i32_of_single,
    u32_of_single, double_of_i32, double_of_u32, spec_double_of_single, i32_of_double,
    u32_of_double};
use crate::scalar::{single_from_i32, single_from_u32, single_from_double, single_to_i32,
    single_to_u32, double_from_i32, double_from_u32, double_from_single, double_to_i32,
    double_to_u32};
use crate::value::{ConstSVMVal, SvmView, ConstBaseVal, BaseValView, opt_view};
use crate::param::{ParameterBaseType, ParameterShape, ParameterType};
use crate::types::spec_surface_name;
use crate::scalar::{UnaryElemOp, BinElemOp, CmpElemOp};
use crate::ops::ShiftDir;
use crate::dispatch::{EvalOp, ConstEvalFunction, ConstEvalFunctionBuilder,
    ConstEvalFunctionInstance, InstanceView, spec_sorted, spec_sort, spec_views_of_instances,
    lemma_sort_sorted, spec_eval_function, spec_equality_instance,
    lemma_equal_dispatch_symmetric, lemma_sort_singleton, spec_compatible, spec_apply_instance,
    spec_apply_op, spec_sig_of};

verus! {

broadcast use {vstd::std_specs::vec::group_vec_axioms, vstd::seq::group_seq_axioms,
    vstd::array::group_array_axioms};

/// Explicit construction of one scalar of the implementing type from
/// a scalar of any base type: the conversion rules of the language's
/// type constructors. A boolean is made by comparing against the
/// source type's zero; a boolean converts to the target's zero or
/// one; conversions between the numeric types follow the host's
/// conversion semantics through the trusted scalar wrappers.
pub trait ScalarConstruct: Sized + Copy {
    spec fn spec_from_bool(b: bool) -> Self;

    spec fn spec_from_i32(x: i32) -> Self;

    spec fn spec_from_u32(x: u32) -> Self;

    spec fn spec_from_single(x: F32Bits) -> Self;

    spec fn spec_from_double(x: F64Bits) -> Self;

    /// The additive zero of the type; the off-diagonal fill of
    /// matrix construction.
    spec fn spec_zero() -> Self;

    /// The multiplicative one of the type; the diagonal fill of
    /// matrix construction from a matrix.
    spec fn spec_one() -> Self;

    fn of_bool(b: bool) -> (r: Self)
        ensures
            r == Self::spec_from_bool(b),
    ;

    fn of_i32(x: i32) -> (r: Self)
        ensures
            r == Self::spec_from_i32(x),
    ;

    fn of_u32(x: u32) -> (r: Self)
        ensures
            r == Self::spec_from_u32(x),
    ;

    fn of_single(x: F32Bits) -> (r: Self)
        ensures
            r == Self::spec_from_single(x),
    ;

    fn of_double(x: F64Bits) -> (r: Self)
        ensures
            r == Self::spec_from_double(x),
    ;

    fn zero_elem() -> (r: Self)
        ensures
            r == Self::spec_zero(),
    ;

    fn one_elem() -> (r: Self)
        ensures
            r == Self::spec_one(),
    ;
}

impl ScalarConstruct for bool {
    open spec fn spec_from_bool(b: bool) -> bool {
        b
    }

    open spec fn spec_from_i32(x: i32) -> bool {
        x != 0
    }

    open spec fn spec_from_u32(x: u32) -> bool {
        x != 0
    }

    open spec fn spec_from_single(x: F32Bits) -> bool {
        !spec_single_eq(x.bits, 0u32)
    }

    open spec fn spec_from_double(x: F64Bits) -> bool {
        !spec_double_eq(x.bits, 0u64)
    }

    open spec fn spec_zero() -> bool {
        false
    }

    open spec fn spec_one() -> bool {
        true
    }

    fn of_bool(b: bool) -> (r: bool) {
        b
    }

    fn of_i32(x: i32) -> (r: bool) {
        x != 0
    }

    fn of_u32(x: u32) -> (r: bool) {
        x != 0
    }

    fn of_single(x: F32Bits) -> (r: bool) {
        !single_eq(x, F32Bits { bits: 0 })
    }

    fn of_double(x: F64Bits) -> (r: bool) {
        !double_eq(x, F64Bits { bits: 0 })
    }

    fn zero_elem() -> (r: bool) {
        false
    }

    fn one_elem() -> (r: bool) {
        true
    }
}

impl ScalarConstruct for i32 {
    open spec fn spec_from_bool(b: bool) -> i32 {
        if b {
            1i32
        } else {
            0i32
        }
    }

    open spec fn spec_from_i32(x: i32) -> i32 {
        x
    }

    open spec fn spec_from_u32(x: u32) -> i32 {
        i32::wrapping_add_unsigned(0i32, x)
    }

    open spec fn spec_from_single(x: F32Bits) -> i32 {
        i32_of_single(x.bits)
    }

    open spec fn spec_from_double(x: F64Bits) -> i32 {
        i32_of_double(x.bits)
    }

    open spec fn spec_zero() -> i32 {
        0i32
    }

    open spec fn spec_one() -> i32 {
        1i32
    }

    fn of_bool(b: bool) -> (r: i32) {
        if b {
            1i32
        } else {
            0i32
        }
    }

    fn of_i32(x: i32) -> (r: i32) {
        x
    }

    fn of_u32(x: u32) -> (r: i32) {
        0i32.wrapping_add_unsigned(x)
    }

    fn of_single(x: F32Bits) -> (r: i32) {
        single_to_i32(x)
    }

    fn of_double(x: F64Bits) -> (r: i32) {
        double_to_i32(x)
    }

    fn zero_elem() -> (r: i32) {
        0i32
    }

    fn one_elem() -> (r: i32) {
        1i32
    }
}

impl ScalarConstruct for u32 {
    open spec fn spec_from_bool(b: bool) -> u32 {
        if b {
            1u32
        } else {
            0u32
        }
    }

    open spec fn spec_from_i32(x: i32) -> u32 {
        u32::wrapping_add_signed(0u32, x)
    }

    open spec fn spec_from_u32(x: u32) -> u32 {
        x
    }

    open spec fn spec_from_single(x: F32Bits) -> u32 {
        u32_of_single(x.bits)
    }

    open spec fn spec_from_double(x: F64Bits) -> u32 {
        u32_of_double(x.bits)
    }

    open spec fn spec_zero() -> u32 {
        0u32
    }

    open spec fn spec_one() -> u32 {
        1u32
    }

    fn of_bool(b: bool) -> (r: u32) {
        if b {
            1u32
        } else {
            0u32
        }
    }

    fn of_i32(x: i32) -> (r: u32) {
        0u32.wrapping_add_signed(x)
    }

    fn of_u32(x: u32) -> (r: u32) {
        x
    }

    fn of_single(x: F32Bits) -> (r: u32) {
        single_to_u32(x)
    }

    fn of_double(x: F64Bits) -> (r: u32) {
        double_to_u32(x)
    }

    fn zero_elem() -> (r: u32) {
        0u32
    }

    fn one_elem() -> (r: u32) {
        1u32
    }
}

impl ScalarConstruct for F32Bits {
    open spec fn spec_from_bool(b: bool) -> F32Bits {
        if b {
            F32Bits { bits: F32_ONE_BITS }
        } else {
            F32Bits { bits: 0 }
        }
    }

    open spec fn spec_from_i32(x: i32) -> F32Bits {
        F32Bits { bits: single_of_i32(x) }
    }

    open spec fn spec_from_u32(x: u32) -> F32Bits {
        F32Bits { bits: single_of_u32(x) }
    }

    open spec fn spec_from_single(x: F32Bits) -> F32Bits {
        x
    }

    open spec fn spec_from_double(x: F64Bits) -> F32Bits {
        F32Bits { bits: spec_single_of_double(x.bits) }
    }

    open spec fn spec_zero() -> F32Bits {
        F32Bits { bits: 0 }
    }

    open spec fn spec_one() -> F32Bits {
        F32Bits { bits: F32_ONE_BITS }
    }

    fn of_bool(b: bool) -> (r: F32Bits) {
        if b {
            F32Bits { bits: F32_ONE_BITS }
        } else {
            F32Bits { bits: 0 }
        }
    }

    fn of_i32(x: i32) -> (r: F32Bits) {
        single_from_i32(x)
    }

    fn of_u32(x: u32) -> (r: F32Bits) {
        single_from_u32(x)
    }

    fn of_single(x: F32Bits) -> (r: F32Bits) {
        x
    }

    fn of_double(x: F64Bits) -> (r: F32Bits) {
        single_from_double(x)
    }

    fn zero_elem() -> (r: F32Bits) {
        F32Bits { bits: 0 }
    }

    fn one_elem() -> (r: F32Bits) {
        F32Bits { bits: F32_ONE_BITS }
    }
}

impl ScalarConstruct for F64Bits {
    open spec fn spec_from_bool(b: bool) -> F64Bits {
        if b {
            F64Bits { bits: F64_ONE_BITS }
        } else {
            F64Bits { bits: 0 }
        }
    }

    open spec fn spec_from_i32(x: i32) -> F64Bits {
        F64Bits { bits: double_of_i32(x) }
    }

    open spec fn spec_from_u32(x: u32) -> F64Bits {
        F64Bits { bits: double_of_u32(x) }
    }

    open spec fn spec_from_single(x: F32Bits) -> F64Bits {
        F64Bits { bits: spec_double_of_single(x.bits) }
    }

    open spec fn spec_from_double(x: F64Bits) -> F64Bits {
        x
    }

    open spec fn spec_zero() -> F64Bits {
        F64Bits { bits: 0 }
    }

    open spec fn spec_one() -> F64Bits {
        F64Bits { bits: F64_ONE_BITS }
    }

    fn of_bool(b: bool) -> (r: F64Bits) {
        if b {
            F64Bits { bits: F64_ONE_BITS }
        } else {
            F64Bits { bits: 0 }
        }
    }

    fn of_i32(x: i32) -> (r: F64Bits) {
        double_from_i32(x)
    }

    fn of_u32(x: u32) -> (r: F64Bits) {
        double_from_u32(x)
    }

    fn of_single(x: F32Bits) -> (r: F64Bits) {
        double_from_single(x)
    }

    fn of_double(x: F64Bits) -> (r: F64Bits) {
        x
    }

    fn zero_elem() -> (r: F64Bits) {
        F64Bits { bits: 0 }
    }

    fn one_elem() -> (r: F64Bits) {
        F64Bits { bits: F64_ONE_BITS }
    }
}

/// The elements of one basic value, each explicitly converted to the
/// target type, in column-major order.
pub open spec fn spec_conv_elems<T: ScalarConstruct>(v: BaseValView) -> Seq<T> {
    match v {
        BaseValView::Bool(s) => s.elems.map_values(|x: bool| T::spec_from_bool(x)),
        BaseValView::Int(s) => s.elems.map_values(|x: i32| T::spec_from_i32(x)),
        BaseValView::UInt(s) => s.elems.map_values(|x: u32| T::spec_from_u32(x)),
        BaseValView::Float(s) => s.elems.map_values(|x: F32Bits| T::spec_from_single(x)),
        BaseValView::Double(s) => s.elems.map_values(|x: F64Bits| T::spec_from_double(x)),
    }
}

/// The concatenated column-major element streams of all arguments,
/// converted to the target type: the element pool vector and matrix
/// constructors draw from.
pub open spec fn spec_flatten<T: ScalarConstruct>(params: Seq<BaseValView>) -> Seq<T>
    decreases params,
{
    if params.len() == 0 {
        Seq::empty()
    } else {
        spec_conv_elems(params.first()) + spec_flatten(params.drop_first())
    }
}

fn conv_elems<T: ScalarConstruct>(v: &ConstBaseVal) -> (r: Vec<T>)
    ensures
        r@ == spec_conv_elems::<T>(v@),
{
    let mut out: Vec<T> = Vec::new();
    match v {
        ConstBaseVal::Bool(s) => {
            let mut i: usize = 0;
            while i < s.elems.len()
                invariant
                    0 <= i <= s.elems@.len(),
                    out@.len() == i as int,
                    forall|j: int|
                        0 <= j < i as int ==> out@[j] == T::spec_from_bool(s.elems@[j]),
                decreases s.elems@.len() - i,
            {
                out.push(T::of_bool(s.elems[i]));
                i += 1;
            }
            proof {
                assert(out@ =~= spec_conv_elems::<T>(v@));
            }
        },
        ConstBaseVal::Int(s) => {
            let mut i: usize = 0;
            while i < s.elems.len()
                invariant
                    0 <= i <= s.elems@.len(),
                    out@.len() == i as int,
                    forall|j: int| 0 <= j < i as int ==> out@[j] == T::spec_from_i32(s.elems@[j]),
                decreases s.elems@.len() - i,
            {
                out.push(T::of_i32(s.elems[i]));
                i += 1;
            }
            proof {
                assert(out@ =~= spec_conv_elems::<T>(v@));
            }
        },
        ConstBaseVal::UInt(s) => {
            let mut i: usize = 0;
            while i < s.elems.len()
                invariant
                    0 <= i <= s.elems@.len(),
                    out@.len() == i as int,
                    forall|j: int| 0 <= j < i as int ==> out@[j] == T::spec_from_u32(s.elems@[j]),
                decreases s.elems@.len() - i,
            {
                out.push(T::of_u32(s.elems[i]));
                i += 1;
            }
            proof {
                assert(out@ =~= spec_conv_elems::<T>(v@));
            }
        },
        ConstBaseVal::Float(s) => {
            let mut i: usize = 0;
            while i < s.elems.len()
                invariant
                    0 <= i <= s.elems@.len(),
                    out@.len() == i as int,
                    forall|j: int|
                        0 <= j < i as int ==> out@[j] == T::spec_from_single(s.elems@[j]),
                decreases s.elems@.len() - i,
            {
                out.push(T::of_single(s.elems[i]));
                i += 1;
            }
            proof {
                assert(out@ =~= spec_conv_elems::<T>(v@));
            }
        },
        ConstBaseVal::Double(s) => {
            let mut i: usize = 0;
            while i < s.elems.len()
                invariant
                    0 <= i <= s.elems@.len(),
                    out@.len() == i as int,
                    forall|j: int|
                        0 <= j < i as int ==> out@[j] == T::spec_from_double(s.elems@[j]),
                decreases s.elems@.len() - i,
            {
                out.push(T::of_double(s.elems[i]));
                i += 1;
            }
            proof {
                assert(out@ =~= spec_conv_elems::<T>(v@));
            }
        },
    }
    out
}

/// `spec_flatten` of a prefix grows one argument at a time.
proof fn lemma_flatten_take<T: ScalarConstruct>(params: Seq<BaseValView>, n: int)
    requires
        0 <= n < params.len(),
    ensures
        spec_flatten::<T>(params.take(n + 1)) == spec_flatten::<T>(params.take(n))
            + spec_conv_elems::<T>(params[n]),
    decreases n,
{
    if n == 0 {
        assert(params.take(1).first() == params[0]);
        assert(params.take(1).drop_first() =~= Seq::<BaseValView>::empty());
        assert(params.take(0) =~= Seq::<BaseValView>::empty());
        assert(spec_flatten::<T>(params.take(1)) =~= spec_flatten::<T>(params.take(0))
            + spec_conv_elems::<T>(params[0]));
    } else {
        let t = params.drop_first();
        assert(params.take(n + 1).first() == params[0]);
        assert(params.take(n + 1).drop_first() =~= t.take(n));
        assert(params.take(n).first() == params[0]);
        assert(params.take(n).drop_first() =~= t.take(n - 1));
        lemma_flatten_take::<T>(t, n - 1);
        assert(t[n - 1] == params[n]);
        assert(spec_flatten::<T>(params.take(n + 1)) == spec_conv_elems::<T>(params[0])
            + spec_flatten::<T>(t.take(n)));
        assert(spec_flatten::<T>(params.take(n)) == spec_conv_elems::<T>(params[0])
            + spec_flatten::<T>(t.take(n - 1)));
        assert(spec_conv_elems::<T>(params[0]) + (spec_flatten::<T>(t.take(n - 1))
            + spec_conv_elems::<T>(params[n])) =~= (spec_conv_elems::<T>(params[0])
            + spec_flatten::<T>(t.take(n - 1))) + spec_conv_elems::<T>(params[n]));
    }
}

/// Flattens all arguments into the constructor's element pool.
pub(crate) fn flatten_to<T: ScalarConstruct>(params: &Vec<ConstBaseVal>) -> (r: Vec<T>)
    ensures
        r@ == spec_flatten::<T>(spec_views_of(params@)),
{
    let ghost views = spec_views_of(params@);
    let mut out: Vec<T> = Vec::new();
    let mut i: usize = 0;
    proof {
        assert(views.take(0) =~= Seq::<BaseValView>::empty());
    }
    while i < params.len()
        invariant
            views == spec_views_of(params@),
            views.len() == params@.len(),
            0 <= i <= params@.len(),
            out@ == spec_flatten::<T>(views.take(i as int)),
        decreases params@.len() - i,
    {
        let mut piece = conv_elems::<T>(&params[i]);
        let ghost old_out = out@;
        let mut k: usize = 0;
        while k < piece.len()
            invariant
                0 <= k <= piece@.len(),
                out@ == old_out + piece@.take(k as int),
            decreases piece@.len() - k,
        {
            proof {
                assert((old_out + piece@.take(k as int)).push(piece@[k as int]) =~= old_out
                    + piece@.take(k as int + 1));
            }
            out.push(piece[k]);
            k += 1;
        }
        proof {
            assert(piece@.take(piece@.len() as int) =~= piece@);
            lemma_flatten_take::<T>(views, i as int);
            assert(views[i as int] == params@[i as int]@);
        }
        i += 1;
    }
    proof {
        assert(views.take(params@.len() as int) =~= views);
    }
    out
}

/// The views of a list of basic values.
pub open spec fn spec_views_of(params: Seq<ConstBaseVal>) -> Seq<BaseValView> {
    Seq::new(params.len(), |i: int| params[i]@)
}

// ---------------------------------------------------------------
// Type constructors
// ---------------------------------------------------------------

/// Scalar construction: one argument, whose first element is
/// explicitly converted to the target type.
pub open spec fn spec_construct_scalar_elems<T: ScalarConstruct>(params: Seq<BaseValView>) -> Option<
    Seq<T>,
> {
    if params.len() == 1 && spec_flatten::<T>(params).len() >= 1 {
        Some(seq![spec_flatten::<T>(params).first()])
    } else {
        None
    }
}

/// Vector construction: a single scalar broadcasts to every
/// component; otherwise the argument elements are flattened in
/// column-major order and the first `n` are taken, absent where
/// fewer are available.
pub open spec fn spec_construct_vec_elems<T: ScalarConstruct>(
    n: int,
    params: Seq<BaseValView>,
) -> Option<Seq<T>> {
    if params.len() == 0 {
        None
    } else if params.len() == 1 && params[0].spec_shape().spec_is_scalar() {
        Some(Seq::new(n as nat, |i: int| spec_flatten::<T>(params).first()))
    } else if spec_flatten::<T>(params).len() >= n {
        Some(spec_flatten::<T>(params).take(n))
    } else {
        None
    }
}

/// Matrix construction: a single scalar fills the diagonal with the
/// rest zero; a single matrix is laid over an identity matrix of the
/// target shape; otherwise the flattened elements fill the matrix
/// column-major, absent where too few are available.
pub open spec fn spec_construct_mat_elems<T: ScalarConstruct>(
    rows: int,
    cols: int,
    params: Seq<BaseValView>,
) -> Option<Seq<T>> {
    if params.len() == 0 {
        None
    } else if params.len() == 1 && params[0].spec_shape().spec_is_scalar() {
        Some(
            Seq::new(
                (rows * cols) as nat,
                |i: int|
                    if i % rows == i / rows {
                        spec_flatten::<T>(params).first()
                    } else {
                        T::spec_zero()
                    },
            ),
        )
    } else if params.len() == 1 && params[0].spec_shape().spec_is_matrix() {
        Some(spec_overlay::<T>(rows, cols, params[0]))
    } else if spec_flatten::<T>(params).len() >= rows * cols {
        Some(spec_flatten::<T>(params).take(rows * cols))
    } else {
        None
    }
}

/// The source matrix's top-left corner laid over an identity matrix
/// of the target dimensions.
pub open spec fn spec_overlay<T: ScalarConstruct>(rows: int, cols: int, src: BaseValView) -> Seq<
    T,
> {
    let sr = src.spec_shape().spec_rows() as int;
    let sc = src.spec_shape().spec_cols() as int;
    let se = spec_conv_elems::<T>(src);
    Seq::new(
        (rows * cols) as nat,
        |i: int|
            {
                let r = i % rows;
                let c = i / rows;
                if r < sr && c < sc {
                    se[c * sr + r]
                } else if r == c {
                    T::spec_one()
                } else {
                    T::spec_zero()
                }
            },
    )
}

fn construct_scalar_elems<T: ScalarConstruct>(params: &Vec<ConstBaseVal>) -> (r: Option<Vec<T>>)
    ensures
        match r {
            Some(es) => spec_construct_scalar_elems::<T>(spec_views_of(params@)) == Some(es@),
            None => spec_construct_scalar_elems::<T>(spec_views_of(params@)) is None,
        },
{
    if params.len() != 1 {
        return None;
    }
    let pool = flatten_to::<T>(params);
    if pool.len() < 1 {
        return None;
    }
    let mut out: Vec<T> = Vec::new();
    out.push(pool[0]);
    proof {
        assert(out@ =~= seq![spec_flatten::<T>(spec_views_of(params@)).first()]);
    }
    Some(out)
}

fn construct_vec_elems<T: ScalarConstruct>(n: usize, params: &Vec<ConstBaseVal>) -> (r: Option<
    Vec<T>,
>)
    requires
        1 <= n <= 4,
        forall|k: int| 0 <= k < params@.len() ==> (#[trigger] params@[k]@).wf(),
    ensures
        match r {
            Some(es) => spec_construct_vec_elems::<T>(n as int, spec_views_of(params@)) == Some(
                es@,
            ),
            None => spec_construct_vec_elems::<T>(n as int, spec_views_of(params@)) is None,
        },
{
    if params.len() == 0 {
        return None;
    }
    let pool = flatten_to::<T>(params);
    if params.len() == 1 && params[0].get_shape().is_scalar() {
        proof {
            assert(spec_views_of(params@)[0] == params@[0]@);
            assert(spec_views_of(params@).take(1) =~= spec_views_of(params@));
            lemma_flatten_take::<T>(spec_views_of(params@), 0);
            assert(spec_views_of(params@).take(0) =~= Seq::<BaseValView>::empty());
            crate::shape::lemma_width_rows_cols(params@[0]@.spec_shape());
            lemma_conv_elems_len::<T>(params@[0]@);
            assert(pool@.len() >= 1);
        }
        let x = pool[0];
        let mut out: Vec<T> = Vec::new();
        let mut i: usize = 0;
        while i < n
            invariant
                0 <= i <= n,
                out@.len() == i as int,
                forall|j: int| 0 <= j < i as int ==> out@[j] == x,
            decreases n - i,
        {
            out.push(x);
            i += 1;
        }
        proof {
            assert(out@ =~= Seq::new(
                n as nat,
                |i: int| spec_flatten::<T>(spec_views_of(params@)).first(),
            ));
        }
        return Some(out);
    }
    if pool.len() >= n {
        let mut out: Vec<T> = Vec::new();
        let mut i: usize = 0;
        while i < n
            invariant
                n <= pool@.len(),
                0 <= i <= n,
                out@.len() == i as int,
                forall|j: int| 0 <= j < i as int ==> out@[j] == pool@[j],
            decreases n - i,
        {
            out.push(pool[i]);
            i += 1;
        }
        proof {
            assert(out@ =~= spec_flatten::<T>(spec_views_of(params@)).take(n as int));
        }
        Some(out)
    } else {
        None
    }
}

fn construct_mat_elems<T: ScalarConstruct>(
    rows: usize,
    cols: usize,
    params: &Vec<ConstBaseVal>,
) -> (r: Option<Vec<T>>)
    requires
        2 <= rows <= 4,
        2 <= cols <= 4,
        forall|k: int| 0 <= k < params@.len() ==> (#[trigger] params@[k]@).wf(),
    ensures
        match r {
            Some(es) => spec_construct_mat_elems::<T>(
                rows as int,
                cols as int,
                spec_views_of(params@),
            ) == Some(es@),
            None => spec_construct_mat_elems::<T>(
                rows as int,
                cols as int,
                spec_views_of(params@),
            ) is None,
        },
{
    if params.len() == 0 {
        return None;
    }
    proof {
        assert((rows as int) * (cols as int) <= 16) by (nonlinear_arith)
            requires
                0 <= rows as int,
                (rows as int) <= 4,
                0 <= cols as int,
                (cols as int) <= 4,
        ;
    }
    let width = rows * cols;
    let pool = flatten_to::<T>(params);
    if params.len() == 1 && params[0].get_shape().is_scalar() {
        proof {
            assert(spec_views_of(params@)[0] == params@[0]@);
            assert(spec_views_of(params@).take(1) =~= spec_views_of(params@));
            lemma_flatten_take::<T>(spec_views_of(params@), 0);
            assert(spec_views_of(params@).take(0) =~= Seq::<BaseValView>::empty());
            crate::shape::lemma_width_rows_cols(params@[0]@.spec_shape());
            lemma_conv_elems_len::<T>(params@[0]@);
            assert(pool@.len() >= 1);
        }
        let x = pool[0];
        let zero = T::zero_elem();
        let mut out: Vec<T> = Vec::new();
        let mut i: usize = 0;
        while i < width
            invariant
                width == rows * cols,
                2 <= rows <= 4,
                2 <= cols <= 4,
                0 <= i <= width,
                out@.len() == i as int,
                zero == T::spec_zero(),
                forall|j: int|
                    0 <= j < i as int ==> out@[j] == (if j % (rows as int) == j / (rows as int) {
                        x
                    } else {
                        T::spec_zero()
                    }),
            decreases width - i,
        {
            let r = i % rows;
            let c = i / rows;
            if r == c {
                out.push(x);
            } else {
                out.push(zero);
            }
            i += 1;
        }
        proof {
            assert(out@ =~= Seq::new(
                ((rows as int) * (cols as int)) as nat,
                |i: int|
                    if i % (rows as int) == i / (rows as int) {
                        spec_flatten::<T>(spec_views_of(params@)).first()
                    } else {
                        T::spec_zero()
                    },
            ));
        }
        return Some(out);
    }
    if params.len() == 1 && params[0].get_shape().is_matrix() {
        let src = conv_elems::<T>(&params[0]);
        let sr = params[0].get_shape().rows();
        let sc = params[0].get_shape().cols();
        proof {
            assert(spec_views_of(params@)[0] == params@[0]@);
            crate::shape::lemma_width_rows_cols(params@[0]@.spec_shape());
            assert(params@[0]@.wf());
            lemma_conv_elems_len::<T>(params@[0]@);
        }
        let zero = T::zero_elem();
        let one = T::one_elem();
        let mut out: Vec<T> = Vec::new();
        let mut i: usize = 0;
        while i < width
            invariant
                width == rows * cols,
                2 <= rows <= 4,
                2 <= cols <= 4,
                1 <= sr <= 4,
                1 <= sc <= 4,
                sr == params@[0]@.spec_shape().spec_rows(),
                sc == params@[0]@.spec_shape().spec_cols(),
                src@ == spec_conv_elems::<T>(params@[0]@),
                src@.len() == sr * sc,
                0 <= i <= width,
                out@.len() == i as int,
                zero == T::spec_zero(),
                one == T::spec_one(),
                forall|j: int|
                    0 <= j < i as int ==> out@[j] == (if j % (rows as int) < sr as int && j / (
                    rows as int) < sc as int {
                        src@[(j / (rows as int)) * (sr as int) + j % (rows as int)]
                    } else if j % (rows as int) == j / (rows as int) {
                        T::spec_one()
                    } else {
                        T::spec_zero()
                    }),
            decreases width - i,
        {
            let r = i % rows;
            let c = i / rows;
            if r < sr && c < sc {
                proof {
                    assert((c as int) * (sr as int) + (r as int) < (sr as int) * (sc as int))
                        by (nonlinear_arith)
                        requires
                            0 <= r as int,
                            (r as int) < sr as int,
                            0 <= c as int,
                            (c as int) < sc as int,
                            1 <= sr as int,
                    ;
                    assert((c as int) * (sr as int) <= 16) by (nonlinear_arith)
                        requires
                            0 <= c as int,
                            (c as int) <= 4,
                            0 <= sr as int,
                            (sr as int) <= 4,
                    ;
                    assert((i as int) / (rows as int) < (cols as int)) by (nonlinear_arith)
                        requires
                            0 <= i as int,
                            (i as int) < (rows as int) * (cols as int),
                            2 <= rows as int,
                    ;
                }
                out.push(src[c * sr + r]);
            } else if r == c {
                out.push(one);
            } else {
                out.push(zero);
            }
            i += 1;
        }
        proof {
            assert(out@ =~= spec_overlay::<T>(rows as int, cols as int, params@[0]@));
        }
        return Some(out);
    }
    if pool.len() >= width {
        let mut out: Vec<T> = Vec::new();
        let mut i: usize = 0;
        while i < width
            invariant
                width <= pool@.len(),
                0 <= i <= width,
                out@.len() == i as int,
                forall|j: int| 0 <= j < i as int ==> out@[j] == pool@[j],
            decreases width - i,
        {
            out.push(pool[i]);
            i += 1;
        }
        proof {
            assert(out@ =~= spec_flatten::<T>(spec_views_of(params@)).take(
                (rows as int) * (cols as int),
            ));
        }
        Some(out)
    } else {
        None
    }
}

/// Explicit conversion keeps the element count.
pub proof fn lemma_conv_elems_len<T: ScalarConstruct>(v: BaseValView)
    ensures
        spec_conv_elems::<T>(v).len() == v.spec_shape().spec_width() || !v.wf(),
{
}

/// A shaped view of the given shape over converted elements.
pub open spec fn spec_pack<T>(shape: BaseTypeShape, elems: Seq<T>) -> SvmView<T> {
    SvmView { shape, elems }
}

/// Scalar construction dispatched on the target base type.
pub open spec fn spec_construct_scalar(
    base: ParameterBaseType,
    params: Seq<BaseValView>,
) -> Option<BaseValView> {
    match base {
        ParameterBaseType::Bool => match spec_construct_scalar_elems::<bool>(params) {
            Some(es) => Some(BaseValView::Bool(spec_pack(BaseTypeShape::Scalar, es))),
            None => None,
        },
        ParameterBaseType::Int => match spec_construct_scalar_elems::<i32>(params) {
            Some(es) => Some(BaseValView::Int(spec_pack(BaseTypeShape::Scalar, es))),
            None => None,
        },
        ParameterBaseType::UInt => match spec_construct_scalar_elems::<u32>(params) {
            Some(es) => Some(BaseValView::UInt(spec_pack(BaseTypeShape::Scalar, es))),
            None => None,
        },
        ParameterBaseType::Float => match spec_construct_scalar_elems::<F32Bits>(params) {
            Some(es) => Some(BaseValView::Float(spec_pack(BaseTypeShape::Scalar, es))),
            None => None,
        },
        ParameterBaseType::Double => match spec_construct_scalar_elems::<F64Bits>(params) {
            Some(es) => Some(BaseValView::Double(spec_pack(BaseTypeShape::Scalar, es))),
            None => None,
        },
    }
}

/// Vector construction dispatched on the target base type; the
/// target shape must be a vector shape.
pub open spec fn spec_construct_vec(
    shape: BaseTypeShape,
    base: ParameterBaseType,
    params: Seq<BaseValView>,
) -> Option<BaseValView> {
    if !shape.spec_is_vector() {
        None
    } else {
        let n = shape.spec_width() as int;
        match base {
            ParameterBaseType::Bool => match spec_construct_vec_elems::<bool>(n, params) {
                Some(es) => Some(BaseValView::Bool(spec_pack(shape, es))),
                None => None,
            },
            ParameterBaseType::Int => match spec_construct_vec_elems::<i32>(n, params) {
                Some(es) => Some(BaseValView::Int(spec_pack(shape, es))),
                None => None,
            },
            ParameterBaseType::UInt => match spec_construct_vec_elems::<u32>(n, params) {
                Some(es) => Some(BaseValView::UInt(spec_pack(shape, es))),
                None => None,
            },
            ParameterBaseType::Float => match spec_construct_vec_elems::<F32Bits>(n, params) {
                Some(es) => Some(BaseValView::Float(spec_pack(shape, es))),
                None => None,
            },
            ParameterBaseType::Double => match spec_construct_vec_elems::<F64Bits>(n, params) {
                Some(es) => Some(BaseValView::Double(spec_pack(shape, es))),
                None => None,
            },
        }
    }
}

/// Matrix construction dispatched on the target base type; matrices
/// exist for the floating point bases alone.
pub open spec fn spec_construct_mat(
    shape: BaseTypeShape,
    base: ParameterBaseType,
    params: Seq<BaseValView>,
) -> Option<BaseValView> {
    if !shape.spec_is_matrix() {
        None
    } else {
        let rows = shape.spec_rows() as int;
        let cols = shape.spec_cols() as int;
        match base {
            ParameterBaseType::Float => match spec_construct_mat_elems::<F32Bits>(
                rows,
                cols,
                params,
            ) {
                Some(es) => Some(BaseValView::Float(spec_pack(shape, es))),
                None => None,
            },
            ParameterBaseType::Double => match spec_construct_mat_elems::<F64Bits>(
                rows,
                cols,
                params,
            ) {
                Some(es) => Some(BaseValView::Double(spec_pack(shape, es))),
                None => None,
            },
            _ => None,
        }
    }
}

pub fn construct_scalar(base: ParameterBaseType, params: &Vec<ConstBaseVal>) -> (r: Option<
    ConstBaseVal,
>)
    ensures
        opt_view(r) == spec_construct_scalar(base, spec_views_of(params@)),
{
    match base {
        ParameterBaseType::Bool => match construct_scalar_elems::<bool>(params) {
            Some(es) => Some(ConstBaseVal::Bool(ConstSVMVal { shape: BaseTypeShape::Scalar, elems: es })),
            None => None,
        },
        ParameterBaseType::Int => match construct_scalar_elems::<i32>(params) {
            Some(es) => Some(ConstBaseVal::Int(ConstSVMVal { shape: BaseTypeShape::Scalar, elems: es })),
            None => None,
        },
        ParameterBaseType::UInt => match construct_scalar_elems::<u32>(params) {
            Some(es) => Some(ConstBaseVal::UInt(ConstSVMVal { shape: BaseTypeShape::Scalar, elems: es })),
            None => None,
        },
        ParameterBaseType::Float => match construct_scalar_elems::<F32Bits>(params) {
            Some(es) => Some(ConstBaseVal::Float(ConstSVMVal { shape: BaseTypeShape::Scalar, elems: es })),
            None => None,
        },
        ParameterBaseType::Double => match construct_scalar_elems::<F64Bits>(params) {
            Some(es) => Some(ConstBaseVal::Double(ConstSVMVal { shape: BaseTypeShape::Scalar, elems: es })),
            None => None,
        },
    }
}

pub fn construct_vec(
    shape: BaseTypeShape,
    base: ParameterBaseType,
    params: &Vec<ConstBaseVal>,
) -> (r: Option<ConstBaseVal>)
    requires
        forall|k: int| 0 <= k < params@.len() ==> (#[trigger] params@[k]@).wf(),
    ensures
        opt_view(r) == spec_construct_vec(shape, base, spec_views_of(params@)),
{
    if !shape.is_vector() {
        return None;
    }
    let n = shape.width();
    match base {
        ParameterBaseType::Bool => match construct_vec_elems::<bool>(n, params) {
            Some(es) => Some(ConstBaseVal::Bool(ConstSVMVal { shape, elems: es })),
            None => None,
        },
        ParameterBaseType::Int => match construct_vec_elems::<i32>(n, params) {
            Some(es) => Some(ConstBaseVal::Int(ConstSVMVal { shape, elems: es })),
            None => None,
        },
        ParameterBaseType::UInt => match construct_vec_elems::<u32>(n, params) {
            Some(es) => Some(ConstBaseVal::UInt(ConstSVMVal { shape, elems: es })),
            None => None,
        },
        ParameterBaseType::Float => match construct_vec_elems::<F32Bits>(n, params) {
            Some(es) => Some(ConstBaseVal::Float(ConstSVMVal { shape, elems: es })),
            None => None,
        },
        ParameterBaseType::Double => match construct_vec_elems::<F64Bits>(n, params) {
            Some(es) => Some(ConstBaseVal::Double(ConstSVMVal { shape, elems: es })),
            None => None,
        },
    }
}

pub fn construct_mat(
    shape: BaseTypeShape,
    base: ParameterBaseType,
    params: &Vec<ConstBaseVal>,
) -> (r: Option<ConstBaseVal>)
    requires
        forall|k: int| 0 <= k < params@.len() ==> (#[trigger] params@[k]@).wf(),
    ensures
        opt_view(r) == spec_construct_mat(shape, base, spec_views_of(params@)),
{
    if !shape.is_matrix() {
        return None;
    }
    let rows = shape.rows();
    let cols = shape.cols();
    match base {
        ParameterBaseType::Float => match construct_mat_elems::<F32Bits>(rows, cols, params) {
            Some(es) => Some(ConstBaseVal::Float(ConstSVMVal { shape, elems: es })),
            None => None,
        },
        ParameterBaseType::Double => match construct_mat_elems::<F64Bits>(rows, cols, params) {
            Some(es) => Some(ConstBaseVal::Double(ConstSVMVal { shape, elems: es })),
            None => None,
        },
        _ => None,
    }
}

// ---------------------------------------------------------------
// The built-in operator tables
// ---------------------------------------------------------------

/// The constant-evaluable functions behind the language's unary and
/// binary operators, one sorted overload table per operator.
#[derive(Debug)]
pub struct OperatorTables {
    pub unary_add: ConstEvalFunction,
    pub unary_minus: ConstEvalFunction,
    pub unary_not: ConstEvalFunction,
    pub unary_complement: ConstEvalFunction,
    pub binary_or: ConstEvalFunction,
    pub binary_xor: ConstEvalFunction,
    pub binary_and: ConstEvalFunction,
    pub binary_bit_or: ConstEvalFunction,
    pub binary_bit_xor: ConstEvalFunction,
    pub binary_bit_and: ConstEvalFunction,
    pub binary_equal: ConstEvalFunction,
    pub binary_lt: ConstEvalFunction,
    pub binary_gt: ConstEvalFunction,
    pub binary_lte: ConstEvalFunction,
    pub binary_gte: ConstEvalFunction,
    pub binary_lshift: ConstEvalFunction,
    pub binary_rshift: ConstEvalFunction,
    pub binary_add: ConstEvalFunction,
    pub binary_sub: ConstEvalFunction,
    pub binary_mult: ConstEvalFunction,
    pub binary_div: ConstEvalFunction,
    pub binary_mod: ConstEvalFunction,
}

pub ghost struct OperatorTablesView {
    pub unary_add: Seq<InstanceView>,
    pub unary_minus: Seq<InstanceView>,
    pub unary_not: Seq<InstanceView>,
    pub unary_complement: Seq<InstanceView>,
    pub binary_or: Seq<InstanceView>,
    pub binary_xor: Seq<InstanceView>,
    pub binary_and: Seq<InstanceView>,
    pub binary_bit_or: Seq<InstanceView>,
    pub binary_bit_xor: Seq<InstanceView>,
    pub binary_bit_and: Seq<InstanceView>,
    pub binary_equal: Seq<InstanceView>,
    pub binary_lt: Seq<InstanceView>,
    pub binary_gt: Seq<InstanceView>,
    pub binary_lte: Seq<InstanceView>,
    pub binary_gte: Seq<InstanceView>,
    pub binary_lshift: Seq<InstanceView>,
    pub binary_rshift: Seq<InstanceView>,
    pub binary_add: Seq<InstanceView>,
    pub binary_sub: Seq<InstanceView>,
    pub binary_mult: Seq<InstanceView>,
    pub binary_div: Seq<InstanceView>,
    pub binary_mod: Seq<InstanceView>,
}

impl View for OperatorTables {
    type V = OperatorTablesView;

    open spec fn view(&self) -> OperatorTablesView {
        OperatorTablesView {
            unary_add: self.unary_add@,
            unary_minus: self.unary_minus@,
            unary_not: self.unary_not@,
            unary_complement: self.unary_complement@,
            binary_or: self.binary_or@,
            binary_xor: self.binary_xor@,
            binary_and: self.binary_and@,
            binary_bit_or: self.binary_bit_or@,
            binary_bit_xor: self.binary_bit_xor@,
            binary_bit_and: self.binary_bit_and@,
            binary_equal: self.binary_equal@,
            binary_lt: self.binary_lt@,
            binary_gt: self.binary_gt@,
            binary_lte: self.binary_lte@,
            binary_gte: self.binary_gte@,
            binary_lshift: self.binary_lshift@,
            binary_rshift: self.binary_rshift@,
            binary_add: self.binary_add@,
            binary_sub: self.binary_sub@,
            binary_mult: self.binary_mult@,
            binary_div: self.binary_div@,
            binary_mod: self.binary_mod@,
        }
    }
}

impl OperatorTables {
    /// Every table is sorted into dispatch order.
    pub open spec fn wf(&self) -> bool {
        &&& spec_sorted(self.unary_add@)
        &&& spec_sorted(self.unary_minus@)
        &&& spec_sorted(self.unary_not@)
        &&& spec_sorted(self.unary_complement@)
        &&& spec_sorted(self.binary_or@)
        &&& spec_sorted(self.binary_xor@)
        &&& spec_sorted(self.binary_and@)
        &&& spec_sorted(self.binary_bit_or@)
        &&& spec_sorted(self.binary_bit_xor@)
        &&& spec_sorted(self.binary_bit_and@)
        &&& spec_sorted(self.binary_equal@)
        &&& spec_sorted(self.binary_lt@)
        &&& spec_sorted(self.binary_gt@)
        &&& spec_sorted(self.binary_lte@)
        &&& spec_sorted(self.binary_gte@)
        &&& spec_sorted(self.binary_lshift@)
        &&& spec_sorted(self.binary_rshift@)
        &&& spec_sorted(self.binary_add@)
        &&& spec_sorted(self.binary_sub@)
        &&& spec_sorted(self.binary_mult@)
        &&& spec_sorted(self.binary_div@)
        &&& spec_sorted(self.binary_mod@)
    }
}


// ---------------------------------------------------------------
// The exact content of the built-in tables, as specification data
// ---------------------------------------------------------------

pub open spec fn spec_pt(base: ParameterBaseType, shape: ParameterShape) -> ParameterType {
    ParameterType { base_type: base, shape }
}

pub open spec fn spec_iv1(t0: ParameterType, op: EvalOp) -> InstanceView {
    InstanceView { prototype: Some(seq![t0]), op }
}

pub open spec fn spec_iv2(t0: ParameterType, t1: ParameterType, op: EvalOp) -> InstanceView {
    InstanceView { prototype: Some(seq![t0, t1]), op }
}

/// The three component-wise overloads of a scalar-or-vector binary
/// operator, in registration order.
pub open spec fn spec_sv_binop_instances(base: ParameterBaseType, op: BinElemOp) -> Seq<
    InstanceView,
> {
    seq![
        spec_iv2(
            spec_pt(base, ParameterShape::GenericSV),
            spec_pt(base, ParameterShape::Scalar),
            EvalOp::Binary(op),
        ),
        spec_iv2(
            spec_pt(base, ParameterShape::Scalar),
            spec_pt(base, ParameterShape::GenericSV),
            EvalOp::Binary(op),
        ),
        spec_iv2(
            spec_pt(base, ParameterShape::GenericSV),
            spec_pt(base, ParameterShape::GenericSV),
            EvalOp::Binary(op),
        ),
    ]
}

/// The scalar-or-vector overloads plus the three matrix element-wise
/// overloads of a floating point operator.
pub open spec fn spec_svm_binop_instances(base: ParameterBaseType, op: BinElemOp) -> Seq<
    InstanceView,
> {
    spec_sv_binop_instances(base, op) + seq![
        spec_iv2(
            spec_pt(base, ParameterShape::GenericM),
            spec_pt(base, ParameterShape::Scalar),
            EvalOp::Binary(op),
        ),
        spec_iv2(
            spec_pt(base, ParameterShape::Scalar),
            spec_pt(base, ParameterShape::GenericM),
            EvalOp::Binary(op),
        ),
        spec_iv2(
            spec_pt(base, ParameterShape::GenericM),
            spec_pt(base, ParameterShape::GenericM),
            EvalOp::Binary(op),
        ),
    ]
}

/// The four scalar overloads of an ordering comparison.
pub open spec fn spec_cmp_instances(op: CmpElemOp) -> Seq<InstanceView> {
    seq![
        spec_iv2(
            spec_pt(ParameterBaseType::Int, ParameterShape::Scalar),
            spec_pt(ParameterBaseType::Int, ParameterShape::Scalar),
            EvalOp::Compare(op),
        ),
        spec_iv2(
            spec_pt(ParameterBaseType::UInt, ParameterShape::Scalar),
            spec_pt(ParameterBaseType::UInt, ParameterShape::Scalar),
            EvalOp::Compare(op),
        ),
        spec_iv2(
            spec_pt(ParameterBaseType::Float, ParameterShape::Scalar),
            spec_pt(ParameterBaseType::Float, ParameterShape::Scalar),
            EvalOp::Compare(op),
        ),
        spec_iv2(
            spec_pt(ParameterBaseType::Double, ParameterShape::Scalar),
            spec_pt(ParameterBaseType::Double, ParameterShape::Scalar),
            EvalOp::Compare(op),
        ),
    ]
}

/// The eight overloads of a shift direction.
pub open spec fn spec_shift_instances(dir: ShiftDir) -> Seq<InstanceView> {
    seq![
        spec_iv2(
            spec_pt(ParameterBaseType::Int, ParameterShape::GenericSV),
            spec_pt(ParameterBaseType::Int, ParameterShape::Scalar),
            EvalOp::Shift(dir),
        ),
        spec_iv2(
            spec_pt(ParameterBaseType::Int, ParameterShape::GenericSV),
            spec_pt(ParameterBaseType::UInt, ParameterShape::Scalar),
            EvalOp::Shift(dir),
        ),
        spec_iv2(
            spec_pt(ParameterBaseType::Int, ParameterShape::GenericSV),
            spec_pt(ParameterBaseType::Int, ParameterShape::GenericSV),
            EvalOp::Shift(dir),
        ),
        spec_iv2(
            spec_pt(ParameterBaseType::Int, ParameterShape::GenericSV),
            spec_pt(ParameterBaseType::UInt, ParameterShape::GenericSV),
            EvalOp::Shift(dir),
        ),
        spec_iv2(
            spec_pt(ParameterBaseType::UInt, ParameterShape::GenericSV),
            spec_pt(ParameterBaseType::Int, ParameterShape::Scalar),
            EvalOp::Shift(dir),
        ),
        spec_iv2(
            spec_pt(ParameterBaseType::UInt, ParameterShape::GenericSV),
            spec_pt(ParameterBaseType::UInt, ParameterShape::Scalar),
            EvalOp::Shift(dir),
        ),
        spec_iv2(
            spec_pt(ParameterBaseType::UInt, ParameterShape::GenericSV),
            spec_pt(ParameterBaseType::Int, ParameterShape::GenericSV),
            EvalOp::Shift(dir),
        ),
        spec_iv2(
            spec_pt(ParameterBaseType::UInt, ParameterShape::GenericSV),
            spec_pt(ParameterBaseType::UInt, ParameterShape::GenericSV),
            EvalOp::Shift(dir),
        ),
    ]
}

/// One linear-product overload.
pub open spec fn spec_lm(base: ParameterBaseType, s0: ParameterShape, s1: ParameterShape) -> InstanceView {
    spec_iv2(spec_pt(base, s0), spec_pt(base, s1), EvalOp::LinMul)
}

/// The thirty-six vector-matrix and matrix-vector product overloads
/// of multiplication, in registration order.
pub open spec fn spec_linmul_instances() -> Seq<InstanceView> {
    seq![
        spec_lm(ParameterBaseType::Float, ParameterShape::Vec2, ParameterShape::Mat2),
        spec_lm(ParameterBaseType::Float, ParameterShape::Vec2, ParameterShape::Mat23),
        spec_lm(ParameterBaseType::Float, ParameterShape::Vec2, ParameterShape::Mat24),
        spec_lm(ParameterBaseType::Float, ParameterShape::Vec3, ParameterShape::Mat32),
        spec_lm(ParameterBaseType::Float, ParameterShape::Vec3, ParameterShape::Mat3),
        spec_lm(ParameterBaseType::Float, ParameterShape::Vec3, ParameterShape::Mat34),
        spec_lm(ParameterBaseType::Float, ParameterShape::Vec4, ParameterShape::Mat42),
        spec_lm(ParameterBaseType::Float, ParameterShape::Vec4, ParameterShape::Mat43),
        spec_lm(ParameterBaseType::Float, ParameterShape::Vec4, ParameterShape::Mat4),
        spec_lm(ParameterBaseType::Float, ParameterShape::Mat2, ParameterShape::Vec2),
        spec_lm(ParameterBaseType::Float, ParameterShape::Mat32, ParameterShape::Vec2),
        spec_lm(ParameterBaseType::Float, ParameterShape::Mat42, ParameterShape::Vec2),
        spec_lm(ParameterBaseType::Float, ParameterShape::Mat23, ParameterShape::Vec3),
        spec_lm(ParameterBaseType::Float, ParameterShape::Mat3, ParameterShape::Vec3),
        spec_lm(ParameterBaseType::Float, ParameterShape::Mat43, ParameterShape::Vec3),
        spec_lm(ParameterBaseType::Float, ParameterShape::Mat24, ParameterShape::Vec4),
        spec_lm(ParameterBaseType::Float, ParameterShape::Mat34, ParameterShape::Vec4),
        spec_lm(ParameterBaseType::Float, ParameterShape::Mat4, ParameterShape::Vec4),
        spec_lm(ParameterBaseType::Double, ParameterShape::Vec2, ParameterShape::Mat2),
        spec_lm(ParameterBaseType::Double, ParameterShape::Vec2, ParameterShape::Mat23),
        spec_lm(ParameterBaseType::Double, ParameterShape::Vec2, ParameterShape::Mat24),
        spec_lm(ParameterBaseType::Double, ParameterShape::Vec3, ParameterShape::Mat32),
        spec_lm(ParameterBaseType::Double, ParameterShape::Vec3, ParameterShape::Mat3),
        spec_lm(ParameterBaseType::Double, ParameterShape::Vec3, ParameterShape::Mat34),
        spec_lm(ParameterBaseType::Double, ParameterShape::Vec4, ParameterShape::Mat42),
        spec_lm(ParameterBaseType::Double, ParameterShape::Vec4, ParameterShape::Mat43),
        spec_lm(ParameterBaseType::Double, ParameterShape::Vec4, ParameterShape::Mat4),
        spec_lm(ParameterBaseType::Double, ParameterShape::Mat2, ParameterShape::Vec2),
        spec_lm(ParameterBaseType::Double, ParameterShape::Mat32, ParameterShape::Vec2),
        spec_lm(ParameterBaseType::Double, ParameterShape::Mat42, ParameterShape::Vec2),
        spec_lm(ParameterBaseType::Double, ParameterShape::Mat23, ParameterShape::Vec3),
        spec_lm(ParameterBaseType::Double, ParameterShape::Mat3, ParameterShape::Vec3),
        spec_lm(ParameterBaseType::Double, ParameterShape::Mat43, ParameterShape::Vec3),
        spec_lm(ParameterBaseType::Double, ParameterShape::Mat24, ParameterShape::Vec4),
        spec_lm(ParameterBaseType::Double, ParameterShape::Mat34, ParameterShape::Vec4),
        spec_lm(ParameterBaseType::Double, ParameterShape::Mat4, ParameterShape::Vec4),
    ]
}

/// The four identity-or-negation overloads of a numeric unary
/// operator: integer scalar-or-vector, floating scalar-vector-matrix.
pub open spec fn spec_unary_numeric_instances(op: UnaryElemOp) -> Seq<InstanceView> {
    seq![
        spec_iv1(spec_pt(ParameterBaseType::Int, ParameterShape::GenericSV), EvalOp::Unary(op)),
        spec_iv1(spec_pt(ParameterBaseType::UInt, ParameterShape::GenericSV), EvalOp::Unary(op)),
        spec_iv1(spec_pt(ParameterBaseType::Float, ParameterShape::GenericSVM), EvalOp::Unary(op)),
        spec_iv1(
            spec_pt(ParameterBaseType::Double, ParameterShape::GenericSVM),
            EvalOp::Unary(op),
        ),
    ]
}

/// The five same-family overloads of whole-value equality.
pub open spec fn spec_equal_instances() -> Seq<InstanceView> {
    seq![
        spec_iv2(
            spec_pt(ParameterBaseType::Bool, ParameterShape::GenericSV),
            spec_pt(ParameterBaseType::Bool, ParameterShape::GenericSV),
            EvalOp::EqualFold,
        ),
        spec_iv2(
            spec_pt(ParameterBaseType::Int, ParameterShape::GenericSV),
            spec_pt(ParameterBaseType::Int, ParameterShape::GenericSV),
            EvalOp::EqualFold,
        ),
        spec_iv2(
            spec_pt(ParameterBaseType::UInt, ParameterShape::GenericSV),
            spec_pt(ParameterBaseType::UInt, ParameterShape::GenericSV),
            EvalOp::EqualFold,
        ),
        spec_iv2(
            spec_pt(ParameterBaseType::Float, ParameterShape::GenericSVM),
            spec_pt(ParameterBaseType::Float, ParameterShape::GenericSVM),
            EvalOp::EqualFold,
        ),
        spec_iv2(
            spec_pt(ParameterBaseType::Double, ParameterShape::GenericSVM),
            spec_pt(ParameterBaseType::Double, ParameterShape::GenericSVM),
            EvalOp::EqualFold,
        ),
    ]
}

/// The single scalar-boolean overload of a logical connective.
pub open spec fn spec_bool_binop_instances(op: BinElemOp) -> Seq<InstanceView> {
    seq![
        spec_iv2(
            spec_pt(ParameterBaseType::Bool, ParameterShape::Scalar),
            spec_pt(ParameterBaseType::Bool, ParameterShape::Scalar),
            EvalOp::Binary(op),
        ),
    ]
}

// The tables themselves: each is the registration list above,
// sorted into dispatch order.

pub open spec fn spec_unary_add_table() -> Seq<InstanceView> {
    spec_sort(spec_unary_numeric_instances(UnaryElemOp::Identity))
}

pub open spec fn spec_unary_minus_table() -> Seq<InstanceView> {
    spec_sort(spec_unary_numeric_instances(UnaryElemOp::Negate))
}

pub open spec fn spec_unary_not_table() -> Seq<InstanceView> {
    spec_sort(
        seq![
            spec_iv1(
                spec_pt(ParameterBaseType::Bool, ParameterShape::Scalar),
                EvalOp::Unary(UnaryElemOp::LogicNot),
            ),
        ],
    )
}

pub open spec fn spec_unary_complement_table() -> Seq<InstanceView> {
    spec_sort(
        seq![
            spec_iv1(
                spec_pt(ParameterBaseType::Int, ParameterShape::GenericSV),
                EvalOp::Unary(UnaryElemOp::Complement),
            ),
            spec_iv1(
                spec_pt(ParameterBaseType::UInt, ParameterShape::GenericSV),
                EvalOp::Unary(UnaryElemOp::Complement),
            ),
        ],
    )
}

pub open spec fn spec_bool_table(op: BinElemOp) -> Seq<InstanceView> {
    spec_sort(spec_bool_binop_instances(op))
}

pub open spec fn spec_bitwise_table(op: BinElemOp) -> Seq<InstanceView> {
    spec_sort(
        spec_sv_binop_instances(ParameterBaseType::Int, op) + spec_sv_binop_instances(
            ParameterBaseType::UInt,
            op,
        ),
    )
}

pub open spec fn spec_equal_table() -> Seq<InstanceView> {
    spec_sort(spec_equal_instances())
}

pub open spec fn spec_cmp_table(op: CmpElemOp) -> Seq<InstanceView> {
    spec_sort(spec_cmp_instances(op))
}

pub open spec fn spec_shift_table(dir: ShiftDir) -> Seq<InstanceView> {
    spec_sort(spec_shift_instances(dir))
}

pub open spec fn spec_arith_table(op: BinElemOp) -> Seq<InstanceView> {
    spec_sort(
        spec_sv_binop_instances(ParameterBaseType::Int, op) + spec_sv_binop_instances(
            ParameterBaseType::UInt,
            op,
        ) + spec_svm_binop_instances(ParameterBaseType::Float, op) + spec_svm_binop_instances(
            ParameterBaseType::Double,
            op,
        ),
    )
}

pub open spec fn spec_mult_table() -> Seq<InstanceView> {
    spec_sort(
        spec_sv_binop_instances(ParameterBaseType::Int, BinElemOp::Mul)
            + spec_sv_binop_instances(ParameterBaseType::UInt, BinElemOp::Mul)
            + spec_svm_binop_instances(ParameterBaseType::Float, BinElemOp::Mul)
            + spec_svm_binop_instances(ParameterBaseType::Double, BinElemOp::Mul)
            + spec_linmul_instances(),
    )
}

pub open spec fn spec_int_arith_table(op: BinElemOp) -> Seq<InstanceView> {
    spec_sort(
        spec_sv_binop_instances(ParameterBaseType::Int, op) + spec_sv_binop_instances(
            ParameterBaseType::UInt,
            op,
        ),
    )
}

/// The exact content of every built-in operator table.
pub open spec fn spec_builtin_tables(r: OperatorTablesView) -> bool {
    &&& r.unary_add == spec_unary_add_table()
    &&& r.unary_minus == spec_unary_minus_table()
    &&& r.unary_not == spec_unary_not_table()
    &&& r.unary_complement == spec_unary_complement_table()
    &&& r.binary_or == spec_bool_table(BinElemOp::LogicOr)
    &&& r.binary_xor == spec_bool_table(BinElemOp::LogicXor)
    &&& r.binary_and == spec_bool_table(BinElemOp::LogicAnd)
    &&& r.binary_bit_or == spec_bitwise_table(BinElemOp::BitOr)
    &&& r.binary_bit_xor == spec_bitwise_table(BinElemOp::BitXor)
    &&& r.binary_bit_and == spec_bitwise_table(BinElemOp::BitAnd)
    &&& r.binary_equal == spec_equal_table()
    &&& r.binary_lt == spec_cmp_table(CmpElemOp::Less)
    &&& r.binary_gt == spec_cmp_table(CmpElemOp::Greater)
    &&& r.binary_lte == spec_cmp_table(CmpElemOp::LessEq)
    &&& r.binary_gte == spec_cmp_table(CmpElemOp::GreaterEq)
    &&& r.binary_lshift == spec_shift_table(ShiftDir::Left)
    &&& r.binary_rshift == spec_shift_table(ShiftDir::Right)
    &&& r.binary_add == spec_arith_table(BinElemOp::Add)
    &&& r.binary_sub == spec_arith_table(BinElemOp::Sub)
    &&& r.binary_mult == spec_mult_table()
    &&& r.binary_div == spec_arith_table(BinElemOp::Div)
    &&& r.binary_mod == spec_int_arith_table(BinElemOp::Mod)
}

fn pt(base: ParameterBaseType, shape: ParameterShape) -> (r: ParameterType)
    ensures
        r == (ParameterType { base_type: base, shape }),
{
    ParameterType::new(base, shape)
}

/// The three component-wise overload shapes of a scalar-or-vector
/// binary operator: value with scalar, scalar with value, and value
/// with value of one shape.
fn add_sv_binop_components(
    f: ConstEvalFunctionBuilder,
    base: ParameterBaseType,
    op: BinElemOp,
) -> (r: ConstEvalFunctionBuilder)
    ensures
        spec_views_of_instances(r.overloads@) =~= spec_views_of_instances(f.overloads@)
            + spec_sv_binop_instances(base, op),
{
    let ghost base0 = spec_views_of_instances(f.overloads@);
    let f = f.add_overload_2(
        pt(base, ParameterShape::GenericSV),
        pt(base, ParameterShape::Scalar),
        EvalOp::Binary(op),
    );
    let f = f.add_overload_2(
        pt(base, ParameterShape::Scalar),
        pt(base, ParameterShape::GenericSV),
        EvalOp::Binary(op),
    );
    let r = f.add_overload_2(
        pt(base, ParameterShape::GenericSV),
        pt(base, ParameterShape::GenericSV),
        EvalOp::Binary(op),
    );
    proof {
        assert(spec_views_of_instances(r.overloads@) =~= base0 + spec_sv_binop_instances(
            base,
            op,
        ));
    }
    r
}

fn add_i32_binop_components(f: ConstEvalFunctionBuilder, op: BinElemOp) -> (r:
    ConstEvalFunctionBuilder)
    ensures
        spec_views_of_instances(r.overloads@) =~= spec_views_of_instances(f.overloads@)
            + spec_sv_binop_instances(ParameterBaseType::Int, op),
{
    add_sv_binop_components(f, ParameterBaseType::Int, op)
}

fn add_u32_binop_components(f: ConstEvalFunctionBuilder, op: BinElemOp) -> (r:
    ConstEvalFunctionBuilder)
    ensures
        spec_views_of_instances(r.overloads@) =~= spec_views_of_instances(f.overloads@)
            + spec_sv_binop_instances(ParameterBaseType::UInt, op),
{
    add_sv_binop_components(f, ParameterBaseType::UInt, op)
}

/// The scalar-or-vector overloads plus the three matrix element-wise
/// overloads of a floating point operator.
fn add_svm_binop_components(
    f: ConstEvalFunctionBuilder,
    base: ParameterBaseType,
    op: BinElemOp,
) -> (r: ConstEvalFunctionBuilder)
    ensures
        spec_views_of_instances(r.overloads@) =~= spec_views_of_instances(f.overloads@)
            + spec_svm_binop_instances(base, op),
{
    let ghost base0 = spec_views_of_instances(f.overloads@);
    let f = add_sv_binop_components(f, base, op);
    let f = f.add_overload_2(
        pt(base, ParameterShape::GenericM),
        pt(base, ParameterShape::Scalar),
        EvalOp::Binary(op),
    );
    let f = f.add_overload_2(
        pt(base, ParameterShape::Scalar),
        pt(base, ParameterShape::GenericM),
        EvalOp::Binary(op),
    );
    let r = f.add_overload_2(
        pt(base, ParameterShape::GenericM),
        pt(base, ParameterShape::GenericM),
        EvalOp::Binary(op),
    );
    proof {
        assert(spec_views_of_instances(r.overloads@) =~= base0 + spec_svm_binop_instances(
            base,
            op,
        ));
    }
    r
}

fn add_f32_binop_components(f: ConstEvalFunctionBuilder, op: BinElemOp) -> (r:
    ConstEvalFunctionBuilder)
    ensures
        spec_views_of_instances(r.overloads@) =~= spec_views_of_instances(f.overloads@)
            + spec_svm_binop_instances(ParameterBaseType::Float, op),
{
    add_svm_binop_components(f, ParameterBaseType::Float, op)
}

fn add_f64_binop_components(f: ConstEvalFunctionBuilder, op: BinElemOp) -> (r:
    ConstEvalFunctionBuilder)
    ensures
        spec_views_of_instances(r.overloads@) =~= spec_views_of_instances(f.overloads@)
            + spec_svm_binop_instances(ParameterBaseType::Double, op),
{
    add_svm_binop_components(f, ParameterBaseType::Double, op)
}

/// The scalar comparison overloads of an ordering operator.
fn add_cmp_components(f: ConstEvalFunctionBuilder, op: CmpElemOp) -> (r: ConstEvalFunctionBuilder)
    ensures
        spec_views_of_instances(r.overloads@) =~= spec_views_of_instances(f.overloads@)
            + spec_cmp_instances(op),
{
    let ghost base0 = spec_views_of_instances(f.overloads@);
    let f = f.add_overload_2(
        pt(ParameterBaseType::Int, ParameterShape::Scalar),
        pt(ParameterBaseType::Int, ParameterShape::Scalar),
        EvalOp::Compare(op),
    );
    let f = f.add_overload_2(
        pt(ParameterBaseType::UInt, ParameterShape::Scalar),
        pt(ParameterBaseType::UInt, ParameterShape::Scalar),
        EvalOp::Compare(op),
    );
    let f = f.add_overload_2(
        pt(ParameterBaseType::Float, ParameterShape::Scalar),
        pt(ParameterBaseType::Float, ParameterShape::Scalar),
        EvalOp::Compare(op),
    );
    let r = f.add_overload_2(
        pt(ParameterBaseType::Double, ParameterShape::Scalar),
        pt(ParameterBaseType::Double, ParameterShape::Scalar),
        EvalOp::Compare(op),
    );
    proof {
        assert(spec_views_of_instances(r.overloads@) =~= base0 + spec_cmp_instances(op));
    }
    r
}

/// The eight overloads of a shift operator: each integer left-hand
/// side with a scalar or same-shaped right-hand side of either
/// integer type.
fn add_shift_components(f: ConstEvalFunctionBuilder, dir: ShiftDir) -> (r:
    ConstEvalFunctionBuilder)
    ensures
        spec_views_of_instances(r.overloads@) =~= spec_views_of_instances(f.overloads@)
            + spec_shift_instances(dir),
{
    let ghost base0 = spec_views_of_instances(f.overloads@);
    let lhs_i = ParameterBaseType::Int;
    let lhs_u = ParameterBaseType::UInt;
    let f = f.add_overload_2(
        pt(lhs_i, ParameterShape::GenericSV),
        pt(lhs_i, ParameterShape::Scalar),
        EvalOp::Shift(dir),
    );
    let f = f.add_overload_2(
        pt(lhs_i, ParameterShape::GenericSV),
        pt(lhs_u, ParameterShape::Scalar),
        EvalOp::Shift(dir),
    );
    let f = f.add_overload_2(
        pt(lhs_i, ParameterShape::GenericSV),
        pt(lhs_i, ParameterShape::GenericSV),
        EvalOp::Shift(dir),
    );
    let f = f.add_overload_2(
        pt(lhs_i, ParameterShape::GenericSV),
        pt(lhs_u, ParameterShape::GenericSV),
        EvalOp::Shift(dir),
    );
    let f = f.add_overload_2(
        pt(lhs_u, ParameterShape::GenericSV),
        pt(lhs_i, ParameterShape::Scalar),
        EvalOp::Shift(dir),
    );
    let f = f.add_overload_2(
        pt(lhs_u, ParameterShape::GenericSV),
        pt(lhs_u, ParameterShape::Scalar),
        EvalOp::Shift(dir),
    );
    let f = f.add_overload_2(
        pt(lhs_u, ParameterShape::GenericSV),
        pt(lhs_i, ParameterShape::GenericSV),
        EvalOp::Shift(dir),
    );
    let r = f.add_overload_2(
        pt(lhs_u, ParameterShape::GenericSV),
        pt(lhs_u, ParameterShape::GenericSV),
        EvalOp::Shift(dir),
    );
    proof {
        assert(spec_views_of_instances(r.overloads@) =~= base0 + spec_shift_instances(dir));
    }
    r
}

/// The thirty-six vector-matrix and matrix-vector product overloads
/// of the multiplication operator.
#[verifier::rlimit(100)]
fn add_linmul_components(f: ConstEvalFunctionBuilder) -> (r: ConstEvalFunctionBuilder)
    ensures
        spec_views_of_instances(r.overloads@) =~= spec_views_of_instances(f.overloads@)
            + spec_linmul_instances(),
{
    let ghost base0 = spec_views_of_instances(f.overloads@);
    let mut f = f;
    let fl = ParameterBaseType::Float;
    let db = ParameterBaseType::Double;
    f = f.add_overload_2(pt(fl, ParameterShape::Vec2), pt(fl, ParameterShape::Mat2), EvalOp::LinMul);
    f = f.add_overload_2(pt(fl, ParameterShape::Vec2), pt(fl, ParameterShape::Mat23), EvalOp::LinMul);
    f = f.add_overload_2(pt(fl, ParameterShape::Vec2), pt(fl, ParameterShape::Mat24), EvalOp::LinMul);
    f = f.add_overload_2(pt(fl, ParameterShape::Vec3), pt(fl, ParameterShape::Mat32), EvalOp::LinMul);
    f = f.add_overload_2(pt(fl, ParameterShape::Vec3), pt(fl, ParameterShape::Mat3), EvalOp::LinMul);
    f = f.add_overload_2(pt(fl, ParameterShape::Vec3), pt(fl, ParameterShape::Mat34), EvalOp::LinMul);
    f = f.add_overload_2(pt(fl, ParameterShape::Vec4), pt(fl, ParameterShape::Mat42), EvalOp::LinMul);
    f = f.add_overload_2(pt(fl, ParameterShape::Vec4), pt(fl, ParameterShape::Mat43), EvalOp::LinMul);
    f = f.add_overload_2(pt(fl, ParameterShape::Vec4), pt(fl, ParameterShape::Mat4), EvalOp::LinMul);
    f = f.add_overload_2(pt(fl, ParameterShape::Mat2), pt(fl, ParameterShape::Vec2), EvalOp::LinMul);
    f = f.add_overload_2(pt(fl, ParameterShape::Mat32), pt(fl, ParameterShape::Vec2), EvalOp::LinMul);
    f = f.add_overload_2(pt(fl, ParameterShape::Mat42), pt(fl, ParameterShape::Vec2), EvalOp::LinMul);
    f = f.add_overload_2(pt(fl, ParameterShape::Mat23), pt(fl, ParameterShape::Vec3), EvalOp::LinMul);
    f = f.add_overload_2(pt(fl, ParameterShape::Mat3), pt(fl, ParameterShape::Vec3), EvalOp::LinMul);
    f = f.add_overload_2(pt(fl, ParameterShape::Mat43), pt(fl, ParameterShape::Vec3), EvalOp::LinMul);
    f = f.add_overload_2(pt(fl, ParameterShape::Mat24), pt(fl, ParameterShape::Vec4), EvalOp::LinMul);
    f = f.add_overload_2(pt(fl, ParameterShape::Mat34), pt(fl, ParameterShape::Vec4), EvalOp::LinMul);
    f = f.add_overload_2(pt(fl, ParameterShape::Mat4), pt(fl, ParameterShape::Vec4), EvalOp::LinMul);
    f = f.add_overload_2(pt(db, ParameterShape::Vec2), pt(db, ParameterShape::Mat2), EvalOp::LinMul);
    f = f.add_overload_2(pt(db, ParameterShape::Vec2), pt(db, ParameterShape::Mat23), EvalOp::LinMul);
    f = f.add_overload_2(pt(db, ParameterShape::Vec2), pt(db, ParameterShape::Mat24), EvalOp::LinMul);
    f = f.add_overload_2(pt(db, ParameterShape::Vec3), pt(db, ParameterShape::Mat32), EvalOp::LinMul);
    f = f.add_overload_2(pt(db, ParameterShape::Vec3), pt(db, ParameterShape::Mat3), EvalOp::LinMul);
    f = f.add_overload_2(pt(db, ParameterShape::Vec3), pt(db, ParameterShape::Mat34), EvalOp::LinMul);
    f = f.add_overload_2(pt(db, ParameterShape::Vec4), pt(db, ParameterShape::Mat42), EvalOp::LinMul);
    f = f.add_overload_2(pt(db, ParameterShape::Vec4), pt(db, ParameterShape::Mat43), EvalOp::LinMul);
    f = f.add_overload_2(pt(db, ParameterShape::Vec4), pt(db, ParameterShape::Mat4), EvalOp::LinMul);
    f = f.add_overload_2(pt(db, ParameterShape::Mat2), pt(db, ParameterShape::Vec2), EvalOp::LinMul);
    f = f.add_overload_2(pt(db, ParameterShape::Mat32), pt(db, ParameterShape::Vec2), EvalOp::LinMul);
    f = f.add_overload_2(pt(db, ParameterShape::Mat42), pt(db, ParameterShape::Vec2), EvalOp::LinMul);
    f = f.add_overload_2(pt(db, ParameterShape::Mat23), pt(db, ParameterShape::Vec3), EvalOp::LinMul);
    f = f.add_overload_2(pt(db, ParameterShape::Mat3), pt(db, ParameterShape::Vec3), EvalOp::LinMul);
    f = f.add_overload_2(pt(db, ParameterShape::Mat43), pt(db, ParameterShape::Vec3), EvalOp::LinMul);
    f = f.add_overload_2(pt(db, ParameterShape::Mat24), pt(db, ParameterShape::Vec4), EvalOp::LinMul);
    f = f.add_overload_2(pt(db, ParameterShape::Mat34), pt(db, ParameterShape::Vec4), EvalOp::LinMul);
    let r = f.add_overload_2(pt(db, ParameterShape::Mat4), pt(db, ParameterShape::Vec4), EvalOp::LinMul);
    proof {
        assert(spec_views_of_instances(r.overloads@) =~= base0 + spec_linmul_instances());
    }
    r
}

/// Builds the operator tables of the language: arithmetic, logic,
/// bitwise operations, shifts, comparisons, equality, and the
/// matrix-vector products of multiplication.
#[verifier::rlimit(100)]
pub fn builtin_operators() -> (r: OperatorTables)
    ensures
        r.wf(),
        spec_builtin_tables(r@),
{
    let builder = ConstEvalFunctionBuilder::new()
        .add_overload_1(pt(ParameterBaseType::Int, ParameterShape::GenericSV), EvalOp::Unary(UnaryElemOp::Identity))
        .add_overload_1(pt(ParameterBaseType::UInt, ParameterShape::GenericSV), EvalOp::Unary(UnaryElemOp::Identity))
        .add_overload_1(pt(ParameterBaseType::Float, ParameterShape::GenericSVM), EvalOp::Unary(UnaryElemOp::Identity))
        .add_overload_1(pt(ParameterBaseType::Double, ParameterShape::GenericSVM), EvalOp::Unary(UnaryElemOp::Identity))
        ;
    proof {
        assert(spec_views_of_instances(builder.overloads@) =~= spec_unary_numeric_instances(UnaryElemOp::Identity));
    }
    let unary_add = builder.build();
    proof {
        assert(unary_add@ == spec_unary_add_table());
    }
    let builder = ConstEvalFunctionBuilder::new()
        .add_overload_1(pt(ParameterBaseType::Int, ParameterShape::GenericSV), EvalOp::Unary(UnaryElemOp::Negate))
        .add_overload_1(pt(ParameterBaseType::UInt, ParameterShape::GenericSV), EvalOp::Unary(UnaryElemOp::Negate))
        .add_overload_1(pt(ParameterBaseType::Float, ParameterShape::GenericSVM), EvalOp::Unary(UnaryElemOp::Negate))
        .add_overload_1(pt(ParameterBaseType::Double, ParameterShape::GenericSVM), EvalOp::Unary(UnaryElemOp::Negate))
        ;
    proof {
        assert(spec_views_of_instances(builder.overloads@) =~= spec_unary_numeric_instances(UnaryElemOp::Negate));
    }
    let unary_minus = builder.build();
    proof {
        assert(unary_minus@ == spec_unary_minus_table());
    }
    let builder = ConstEvalFunctionBuilder::new()
        .add_overload_1(pt(ParameterBaseType::Bool, ParameterShape::Scalar), EvalOp::Unary(UnaryElemOp::LogicNot))
        ;
    proof {
        assert(spec_views_of_instances(builder.overloads@) =~= seq![spec_iv1(spec_pt(ParameterBaseType::Bool, ParameterShape::Scalar), EvalOp::Unary(UnaryElemOp::LogicNot))]);
    }
    let unary_not = builder.build();
    proof {
        assert(unary_not@ == spec_unary_not_table());
    }
    let builder = ConstEvalFunctionBuilder::new()
        .add_overload_1(pt(ParameterBaseType::Int, ParameterShape::GenericSV), EvalOp::Unary(UnaryElemOp::Complement))
        .add_overload_1(pt(ParameterBaseType::UInt, ParameterShape::GenericSV), EvalOp::Unary(UnaryElemOp::Complement))
        ;
    proof {
        assert(spec_views_of_instances(builder.overloads@) =~= seq![spec_iv1(spec_pt(ParameterBaseType::Int, ParameterShape::GenericSV), EvalOp::Unary(UnaryElemOp::Complement)), spec_iv1(spec_pt(ParameterBaseType::UInt, ParameterShape::GenericSV), EvalOp::Unary(UnaryElemOp::Complement))]);
    }
    let unary_complement = builder.build();
    proof {
        assert(unary_complement@ == spec_unary_complement_table());
    }
    let builder = ConstEvalFunctionBuilder::new()
        .add_overload_2(pt(ParameterBaseType::Bool, ParameterShape::Scalar), pt(ParameterBaseType::Bool, ParameterShape::Scalar), EvalOp::Binary(BinElemOp::LogicOr))
        ;
    proof {
        assert(spec_views_of_instances(builder.overloads@) =~= spec_bool_binop_instances(BinElemOp::LogicOr));
    }
    let binary_or = builder.build();
    proof {
        assert(binary_or@ == spec_bool_table(BinElemOp::LogicOr));
    }
    let builder = ConstEvalFunctionBuilder::new()
        .add_overload_2(pt(ParameterBaseType::Bool, ParameterShape::Scalar), pt(ParameterBaseType::Bool, ParameterShape::Scalar), EvalOp::Binary(BinElemOp::LogicXor))
        ;
    proof {
        assert(spec_views_of_instances(builder.overloads@) =~= spec_bool_binop_instances(BinElemOp::LogicXor));
    }
    let binary_xor = builder.build();
    proof {
        assert(binary_xor@ == spec_bool_table(BinElemOp::LogicXor));
    }
    let builder = ConstEvalFunctionBuilder::new()
        .add_overload_2(pt(ParameterBaseType::Bool, ParameterShape::Scalar), pt(ParameterBaseType::Bool, ParameterShape::Scalar), EvalOp::Binary(BinElemOp::LogicAnd))
        ;
    proof {
        assert(spec_views_of_instances(builder.overloads@) =~= spec_bool_binop_instances(BinElemOp::LogicAnd));
    }
    let binary_and = builder.build();
    proof {
        assert(binary_and@ == spec_bool_table(BinElemOp::LogicAnd));
    }
    let builder = add_u32_binop_components(
        add_i32_binop_components(ConstEvalFunctionBuilder::new(), BinElemOp::BitOr),
        BinElemOp::BitOr,
    );
    proof {
        assert(spec_views_of_instances(builder.overloads@) =~= spec_sv_binop_instances(ParameterBaseType::Int, BinElemOp::BitOr) + spec_sv_binop_instances(ParameterBaseType::UInt, BinElemOp::BitOr));
    }
    let binary_bit_or = builder.build();
    proof {
        assert(binary_bit_or@ == spec_bitwise_table(BinElemOp::BitOr));
    }
    let builder = add_u32_binop_components(
        add_i32_binop_components(ConstEvalFunctionBuilder::new(), BinElemOp::BitXor),
        BinElemOp::BitXor,
    );
    proof {
        assert(spec_views_of_instances(builder.overloads@) =~= spec_sv_binop_instances(ParameterBaseType::Int, BinElemOp::BitXor) + spec_sv_binop_instances(ParameterBaseType::UInt, BinElemOp::BitXor));
    }
    let binary_bit_xor = builder.build();
    proof {
        assert(binary_bit_xor@ == spec_bitwise_table(BinElemOp::BitXor));
    }
    let builder = add_u32_binop_components(
        add_i32_binop_components(ConstEvalFunctionBuilder::new(), BinElemOp::BitAnd),
        BinElemOp::BitAnd,
    );
    proof {
        assert(spec_views_of_instances(builder.overloads@) =~= spec_sv_binop_instances(ParameterBaseType::Int, BinElemOp::BitAnd) + spec_sv_binop_instances(ParameterBaseType::UInt, BinElemOp::BitAnd));
    }
    let binary_bit_and = builder.build();
    proof {
        assert(binary_bit_and@ == spec_bitwise_table(BinElemOp::BitAnd));
    }
    let builder = ConstEvalFunctionBuilder::new()
        .add_overload_2(pt(ParameterBaseType::Bool, ParameterShape::GenericSV), pt(ParameterBaseType::Bool, ParameterShape::GenericSV), EvalOp::EqualFold)
        .add_overload_2(pt(ParameterBaseType::Int, ParameterShape::GenericSV), pt(ParameterBaseType::Int, ParameterShape::GenericSV), EvalOp::EqualFold)
        .add_overload_2(pt(ParameterBaseType::UInt, ParameterShape::GenericSV), pt(ParameterBaseType::UInt, ParameterShape::GenericSV), EvalOp::EqualFold)
        .add_overload_2(pt(ParameterBaseType::Float, ParameterShape::GenericSVM), pt(ParameterBaseType::Float, ParameterShape::GenericSVM), EvalOp::EqualFold)
        .add_overload_2(pt(ParameterBaseType::Double, ParameterShape::GenericSVM), pt(ParameterBaseType::Double, ParameterShape::GenericSVM), EvalOp::EqualFold)
        ;
    proof {
        assert(spec_views_of_instances(builder.overloads@) =~= spec_equal_instances());
    }
    let binary_equal = builder.build();
    proof {
        assert(binary_equal@ == spec_equal_table());
    }
    let builder = add_cmp_components(ConstEvalFunctionBuilder::new(), CmpElemOp::Less);
    proof {
        assert(spec_views_of_instances(builder.overloads@) =~= spec_cmp_instances(
            CmpElemOp::Less,
        ));
    }
    let binary_lt = builder.build();
    let builder = add_cmp_components(ConstEvalFunctionBuilder::new(), CmpElemOp::Greater);
    proof {
        assert(spec_views_of_instances(builder.overloads@) =~= spec_cmp_instances(
            CmpElemOp::Greater,
        ));
    }
    let binary_gt = builder.build();
    let builder = add_cmp_components(ConstEvalFunctionBuilder::new(), CmpElemOp::LessEq);
    proof {
        assert(spec_views_of_instances(builder.overloads@) =~= spec_cmp_instances(
            CmpElemOp::LessEq,
        ));
    }
    let binary_lte = builder.build();
    let builder = add_cmp_components(ConstEvalFunctionBuilder::new(), CmpElemOp::GreaterEq);
    proof {
        assert(spec_views_of_instances(builder.overloads@) =~= spec_cmp_instances(
            CmpElemOp::GreaterEq,
        ));
    }
    let binary_gte = builder.build();
    let builder = add_shift_components(ConstEvalFunctionBuilder::new(), ShiftDir::Left);
    proof {
        assert(spec_views_of_instances(builder.overloads@) =~= spec_shift_instances(
            ShiftDir::Left,
        ));
    }
    let binary_lshift = builder.build();
    let builder = add_shift_components(ConstEvalFunctionBuilder::new(), ShiftDir::Right);
    proof {
        assert(spec_views_of_instances(builder.overloads@) =~= spec_shift_instances(
            ShiftDir::Right,
        ));
    }
    let binary_rshift = builder.build();
    let builder = add_f64_binop_components(
        add_f32_binop_components(
            add_u32_binop_components(
                add_i32_binop_components(ConstEvalFunctionBuilder::new(), BinElemOp::Add),
                BinElemOp::Add,
            ),
            BinElemOp::Add,
        ),
        BinElemOp::Add,
    );
    proof {
        assert(spec_views_of_instances(builder.overloads@) =~= spec_sv_binop_instances(ParameterBaseType::Int, BinElemOp::Add) + spec_sv_binop_instances(ParameterBaseType::UInt, BinElemOp::Add) + spec_svm_binop_instances(ParameterBaseType::Float, BinElemOp::Add) + spec_svm_binop_instances(ParameterBaseType::Double, BinElemOp::Add));
    }
    let binary_add = builder.build();
    proof {
        assert(binary_add@ == spec_arith_table(BinElemOp::Add));
    }
    let builder = add_f64_binop_components(
        add_f32_binop_components(
            add_u32_binop_components(
                add_i32_binop_components(ConstEvalFunctionBuilder::new(), BinElemOp::Sub),
                BinElemOp::Sub,
            ),
            BinElemOp::Sub,
        ),
        BinElemOp::Sub,
    );
    proof {
        assert(spec_views_of_instances(builder.overloads@) =~= spec_sv_binop_instances(ParameterBaseType::Int, BinElemOp::Sub) + spec_sv_binop_instances(ParameterBaseType::UInt, BinElemOp::Sub) + spec_svm_binop_instances(ParameterBaseType::Float, BinElemOp::Sub) + spec_svm_binop_instances(ParameterBaseType::Double, BinElemOp::Sub));
    }
    let binary_sub = builder.build();
    proof {
        assert(binary_sub@ == spec_arith_table(BinElemOp::Sub));
    }
    let builder = add_linmul_components(
        add_f64_binop_components(
            add_f32_binop_components(
                add_u32_binop_components(
                    add_i32_binop_components(ConstEvalFunctionBuilder::new(), BinElemOp::Mul),
                    BinElemOp::Mul,
                ),
                BinElemOp::Mul,
            ),
            BinElemOp::Mul,
        ),
    );
    proof {
        assert(spec_views_of_instances(builder.overloads@) =~= spec_sv_binop_instances(ParameterBaseType::Int, BinElemOp::Mul) + spec_sv_binop_instances(ParameterBaseType::UInt, BinElemOp::Mul) + spec_svm_binop_instances(ParameterBaseType::Float, BinElemOp::Mul) + spec_svm_binop_instances(ParameterBaseType::Double, BinElemOp::Mul) + spec_linmul_instances());
    }
    let binary_mult = builder.build();
    proof {
        assert(binary_mult@ == spec_mult_table());
    }
    let builder = add_f64_binop_components(
        add_f32_binop_components(
            add_u32_binop_components(
                add_i32_binop_components(ConstEvalFunctionBuilder::new(), BinElemOp::Div),
                BinElemOp::Div,
            ),
            BinElemOp::Div,
        ),
        BinElemOp::Div,
    );
    proof {
        assert(spec_views_of_instances(builder.overloads@) =~= spec_sv_binop_instances(ParameterBaseType::Int, BinElemOp::Div) + spec_sv_binop_instances(ParameterBaseType::UInt, BinElemOp::Div) + spec_svm_binop_instances(ParameterBaseType::Float, BinElemOp::Div) + spec_svm_binop_instances(ParameterBaseType::Double, BinElemOp::Div));
    }
    let binary_div = builder.build();
    proof {
        assert(binary_div@ == spec_arith_table(BinElemOp::Div));
    }
    let builder = add_u32_binop_components(
        add_i32_binop_components(ConstEvalFunctionBuilder::new(), BinElemOp::Mod),
        BinElemOp::Mod,
    );
    proof {
        assert(spec_views_of_instances(builder.overloads@) =~= spec_sv_binop_instances(ParameterBaseType::Int, BinElemOp::Mod) + spec_sv_binop_instances(ParameterBaseType::UInt, BinElemOp::Mod));
    }
    let binary_mod = builder.build();
    proof {
        assert(binary_mod@ == spec_int_arith_table(BinElemOp::Mod));
    }
    OperatorTables {
        unary_add,
        unary_minus,
        unary_not,
        unary_complement,
        binary_or,
        binary_xor,
        binary_and,
        binary_bit_or,
        binary_bit_xor,
        binary_bit_and,
        binary_equal,
        binary_lt,
        binary_gt,
        binary_lte,
        binary_gte,
        binary_lshift,
        binary_rshift,
        binary_add,
        binary_sub,
        binary_mult,
        binary_div,
        binary_mod,
    }
}


/// The five overloads of a scalar type constructor: one per source
/// base type, each over a scalar or vector, in registration order.
pub open spec fn spec_scalar_ctor_instances(target: ParameterBaseType) -> Seq<InstanceView> {
    seq![
        spec_iv1(
            spec_pt(ParameterBaseType::Bool, ParameterShape::GenericSV),
            EvalOp::ConstructScalar(target),
        ),
        spec_iv1(
            spec_pt(ParameterBaseType::Int, ParameterShape::GenericSV),
            EvalOp::ConstructScalar(target),
        ),
        spec_iv1(
            spec_pt(ParameterBaseType::UInt, ParameterShape::GenericSV),
            EvalOp::ConstructScalar(target),
        ),
        spec_iv1(
            spec_pt(ParameterBaseType::Float, ParameterShape::GenericSV),
            EvalOp::ConstructScalar(target),
        ),
        spec_iv1(
            spec_pt(ParameterBaseType::Double, ParameterShape::GenericSV),
            EvalOp::ConstructScalar(target),
        ),
    ]
}

pub open spec fn spec_scalar_ctor_table(target: ParameterBaseType) -> Seq<InstanceView> {
    spec_sort(spec_scalar_ctor_instances(target))
}

pub open spec fn spec_vec_ctor_table(shape: BaseTypeShape, base: ParameterBaseType) -> Seq<
    InstanceView,
> {
    spec_sort(
        seq![
            (InstanceView {
                prototype: None::<Seq<ParameterType>>,
                op: EvalOp::ConstructVec(shape, base),
            }),
        ],
    )
}

pub open spec fn spec_mat_ctor_table(shape: BaseTypeShape, base: ParameterBaseType) -> Seq<
    InstanceView,
> {
    spec_sort(
        seq![
            (InstanceView {
                prototype: None::<Seq<ParameterType>>,
                op: EvalOp::ConstructMat(shape, base),
            }),
        ],
    )
}

/// The exact entries the constructor registration installs: every
/// type constructor of the language under its surface name, in
/// registration order.
/// The registration entries of the five scalar constructors.
pub open spec fn spec_ctor_entries_scalars() -> Seq<(Seq<char>, Seq<InstanceView>)> {
    Seq::<(Seq<char>, Seq<InstanceView>)>::empty()
        .push((("bool"@, spec_scalar_ctor_table(ParameterBaseType::Bool))))
        .push((("int"@, spec_scalar_ctor_table(ParameterBaseType::Int))))
        .push((("uint"@, spec_scalar_ctor_table(ParameterBaseType::UInt))))
        .push((("float"@, spec_scalar_ctor_table(ParameterBaseType::Float))))
        .push((("double"@, spec_scalar_ctor_table(ParameterBaseType::Double))))
}

/// The registration entries of the two-component vector constructors.
pub open spec fn spec_ctor_entries_vec2() -> Seq<(Seq<char>, Seq<InstanceView>)> {
    Seq::<(Seq<char>, Seq<InstanceView>)>::empty()
        .push((("bvec2"@, spec_vec_ctor_table(BaseTypeShape::Vec2, ParameterBaseType::Bool))))
        .push((("ivec2"@, spec_vec_ctor_table(BaseTypeShape::Vec2, ParameterBaseType::Int))))
        .push((("uvec2"@, spec_vec_ctor_table(BaseTypeShape::Vec2, ParameterBaseType::UInt))))
        .push((("vec2"@, spec_vec_ctor_table(BaseTypeShape::Vec2, ParameterBaseType::Float))))
        .push((("dvec2"@, spec_vec_ctor_table(BaseTypeShape::Vec2, ParameterBaseType::Double))))
}

/// The registration entries of the three-component vector constructors.
pub open spec fn spec_ctor_entries_vec3() -> Seq<(Seq<char>, Seq<InstanceView>)> {
    Seq::<(Seq<char>, Seq<InstanceView>)>::empty()
        .push((("bvec3"@, spec_vec_ctor_table(BaseTypeShape::Vec3, ParameterBaseType::Bool))))
        .push((("ivec3"@, spec_vec_ctor_table(BaseTypeShape::Vec3, ParameterBaseType::Int))))
        .push((("uvec3"@, spec_vec_ctor_table(BaseTypeShape::Vec3, ParameterBaseType::UInt))))
        .push((("vec3"@, spec_vec_ctor_table(BaseTypeShape::Vec3, ParameterBaseType::Float))))
        .push((("dvec3"@, spec_vec_ctor_table(BaseTypeShape::Vec3, ParameterBaseType::Double))))
}

/// The registration entries of the four-component vector constructors.
pub open spec fn spec_ctor_entries_vec4() -> Seq<(Seq<char>, Seq<InstanceView>)> {
    Seq::<(Seq<char>, Seq<InstanceView>)>::empty()
        .push((("bvec4"@, spec_vec_ctor_table(BaseTypeShape::Vec4, ParameterBaseType::Bool))))
        .push((("ivec4"@, spec_vec_ctor_table(BaseTypeShape::Vec4, ParameterBaseType::Int))))
        .push((("uvec4"@, spec_vec_ctor_table(BaseTypeShape::Vec4, ParameterBaseType::UInt))))
        .push((("vec4"@, spec_vec_ctor_table(BaseTypeShape::Vec4, ParameterBaseType::Float))))
        .push((("dvec4"@, spec_vec_ctor_table(BaseTypeShape::Vec4, ParameterBaseType::Double))))
}

/// The registration entries of the single precision matrix constructors.
pub open spec fn spec_ctor_entries_mat() -> Seq<(Seq<char>, Seq<InstanceView>)> {
    Seq::<(Seq<char>, Seq<InstanceView>)>::empty()
        .push((("mat2"@, spec_mat_ctor_table(BaseTypeShape::Mat2, ParameterBaseType::Float))))
        .push((("mat23"@, spec_mat_ctor_table(BaseTypeShape::Mat23, ParameterBaseType::Float))))
        .push((("mat24"@, spec_mat_ctor_table(BaseTypeShape::Mat24, ParameterBaseType::Float))))
        .push((("mat32"@, spec_mat_ctor_table(BaseTypeShape::Mat32, ParameterBaseType::Float))))
        .push((("mat3"@, spec_mat_ctor_table(BaseTypeShape::Mat3, ParameterBaseType::Float))))
        .push((("mat34"@, spec_mat_ctor_table(BaseTypeShape::Mat34, ParameterBaseType::Float))))
        .push((("mat42"@, spec_mat_ctor_table(BaseTypeShape::Mat42, ParameterBaseType::Float))))
        .push((("mat43"@, spec_mat_ctor_table(BaseTypeShape::Mat43, ParameterBaseType::Float))))
        .push((("mat4"@, spec_mat_ctor_table(BaseTypeShape::Mat4, ParameterBaseType::Float))))
}

/// The registration entries of the double precision matrix constructors.
pub open spec fn spec_ctor_entries_dmat() -> Seq<(Seq<char>, Seq<InstanceView>)> {
    Seq::<(Seq<char>, Seq<InstanceView>)>::empty()
        .push((("dmat2"@, spec_mat_ctor_table(BaseTypeShape::Mat2, ParameterBaseType::Double))))
        .push((("dmat23"@, spec_mat_ctor_table(BaseTypeShape::Mat23, ParameterBaseType::Double))))
        .push((("dmat24"@, spec_mat_ctor_table(BaseTypeShape::Mat24, ParameterBaseType::Double))))
        .push((("dmat32"@, spec_mat_ctor_table(BaseTypeShape::Mat32, ParameterBaseType::Double))))
        .push((("dmat3"@, spec_mat_ctor_table(BaseTypeShape::Mat3, ParameterBaseType::Double))))
        .push((("dmat34"@, spec_mat_ctor_table(BaseTypeShape::Mat34, ParameterBaseType::Double))))
        .push((("dmat42"@, spec_mat_ctor_table(BaseTypeShape::Mat42, ParameterBaseType::Double))))
        .push((("dmat43"@, spec_mat_ctor_table(BaseTypeShape::Mat43, ParameterBaseType::Double))))
        .push((("dmat4"@, spec_mat_ctor_table(BaseTypeShape::Mat4, ParameterBaseType::Double))))
}

/// The exact entries the constructor registration installs: every
/// type constructor of the language under its surface name, in
/// registration order.
pub open spec fn spec_constructor_entries() -> Seq<(Seq<char>, Seq<InstanceView>)> {
    spec_ctor_entries_scalars() + spec_ctor_entries_vec2() + spec_ctor_entries_vec3()
        + spec_ctor_entries_vec4() + spec_ctor_entries_mat() + spec_ctor_entries_dmat()
}

/// Registers the type constructors of the language as
/// constant-evaluable functions: the five scalar constructors, the
/// vector constructors of every base type, and the matrix
/// constructors of the two floating point base types.
#[verifier::rlimit(100)]
pub fn register_constructor_const_functions(reg: &mut crate::propagate::FunctionRegistry)
    ensures
        final(reg)@ == old(reg)@ + spec_constructor_entries(),
{
    let ghost before = reg@;
    let b = ParameterBaseType::Bool;
    let i = ParameterBaseType::Int;
    let u = ParameterBaseType::UInt;
    let f = ParameterBaseType::Float;
    let d = ParameterBaseType::Double;
    reg.add(String::from_str("bool"), scalar_constructor(b));
    reg.add(String::from_str("int"), scalar_constructor(i));
    reg.add(String::from_str("uint"), scalar_constructor(u));
    reg.add(String::from_str("float"), scalar_constructor(f));
    reg.add(String::from_str("double"), scalar_constructor(d));
    proof {
        assert(reg@ =~= before + spec_ctor_entries_scalars());
    }
    reg.add(String::from_str("bvec2"), vec_constructor(BaseTypeShape::Vec2, b));
    reg.add(String::from_str("ivec2"), vec_constructor(BaseTypeShape::Vec2, i));
    reg.add(String::from_str("uvec2"), vec_constructor(BaseTypeShape::Vec2, u));
    reg.add(String::from_str("vec2"), vec_constructor(BaseTypeShape::Vec2, f));
    reg.add(String::from_str("dvec2"), vec_constructor(BaseTypeShape::Vec2, d));
    proof {
        assert(reg@ =~= before + spec_ctor_entries_scalars() + spec_ctor_entries_vec2());
    }
    reg.add(String::from_str("bvec3"), vec_constructor(BaseTypeShape::Vec3, b));
    reg.add(String::from_str("ivec3"), vec_constructor(BaseTypeShape::Vec3, i));
    reg.add(String::from_str("uvec3"), vec_constructor(BaseTypeShape::Vec3, u));
    reg.add(String::from_str("vec3"), vec_constructor(BaseTypeShape::Vec3, f));
    reg.add(String::from_str("dvec3"), vec_constructor(BaseTypeShape::Vec3, d));
    proof {
        assert(reg@ =~= before + spec_ctor_entries_scalars() + spec_ctor_entries_vec2()
            + spec_ctor_entries_vec3());
    }
    reg.add(String::from_str("bvec4"), vec_constructor(BaseTypeShape::Vec4, b));
    reg.add(String::from_str("ivec4"), vec_constructor(BaseTypeShape::Vec4, i));
    reg.add(String::from_str("uvec4"), vec_constructor(BaseTypeShape::Vec4, u));
    reg.add(String::from_str("vec4"), vec_constructor(BaseTypeShape::Vec4, f));
    reg.add(String::from_str("dvec4"), vec_constructor(BaseTypeShape::Vec4, d));
    proof {
        assert(reg@ =~= before + spec_ctor_entries_scalars() + spec_ctor_entries_vec2()
            + spec_ctor_entries_vec3() + spec_ctor_entries_vec4());
    }
    reg.add(String::from_str("mat2"), mat_constructor(BaseTypeShape::Mat2, f));
    reg.add(String::from_str("mat23"), mat_constructor(BaseTypeShape::Mat23, f));
    reg.add(String::from_str("mat24"), mat_constructor(BaseTypeShape::Mat24, f));
    reg.add(String::from_str("mat32"), mat_constructor(BaseTypeShape::Mat32, f));
    reg.add(String::from_str("mat3"), mat_constructor(BaseTypeShape::Mat3, f));
    reg.add(String::from_str("mat34"), mat_constructor(BaseTypeShape::Mat34, f));
    reg.add(String::from_str("mat42"), mat_constructor(BaseTypeShape::Mat42, f));
    reg.add(String::from_str("mat43"), mat_constructor(BaseTypeShape::Mat43, f));
    reg.add(String::from_str("mat4"), mat_constructor(BaseTypeShape::Mat4, f));
    proof {
        assert(reg@ =~= before + spec_ctor_entries_scalars() + spec_ctor_entries_vec2()
            + spec_ctor_entries_vec3() + spec_ctor_entries_vec4() + spec_ctor_entries_mat());
    }
    reg.add(String::from_str("dmat2"), mat_constructor(BaseTypeShape::Mat2, d));
    reg.add(String::from_str("dmat23"), mat_constructor(BaseTypeShape::Mat23, d));
    reg.add(String::from_str("dmat24"), mat_constructor(BaseTypeShape::Mat24, d));
    reg.add(String::from_str("dmat32"), mat_constructor(BaseTypeShape::Mat32, d));
    reg.add(String::from_str("dmat3"), mat_constructor(BaseTypeShape::Mat3, d));
    reg.add(String::from_str("dmat34"), mat_constructor(BaseTypeShape::Mat34, d));
    reg.add(String::from_str("dmat42"), mat_constructor(BaseTypeShape::Mat42, d));
    reg.add(String::from_str("dmat43"), mat_constructor(BaseTypeShape::Mat43, d));
    reg.add(String::from_str("dmat4"), mat_constructor(BaseTypeShape::Mat4, d));
    proof {
        assert(reg@ =~= before + spec_ctor_entries_scalars() + spec_ctor_entries_vec2()
            + spec_ctor_entries_vec3() + spec_ctor_entries_vec4() + spec_ctor_entries_mat()
            + spec_ctor_entries_dmat());
        assert(before + spec_ctor_entries_scalars() + spec_ctor_entries_vec2()
            + spec_ctor_entries_vec3() + spec_ctor_entries_vec4() + spec_ctor_entries_mat()
            + spec_ctor_entries_dmat() =~= before + spec_constructor_entries());
    }
}

/// Registers every built-in constant-evaluable function.
pub fn register_builtin_const_functions(reg: &mut crate::propagate::FunctionRegistry)
    ensures
        final(reg)@ == old(reg)@ + spec_constructor_entries(),
{
    register_constructor_const_functions(reg);
}

/// The function lookup the language's built-ins populate.
pub fn builtin_functions() -> (r: crate::propagate::FunctionRegistry)
    ensures
        r@ == spec_constructor_entries(),
{
    let mut reg = crate::propagate::FunctionRegistry::new();
    register_builtin_const_functions(&mut reg);
    proof {
        assert(Seq::<(Seq<char>, Seq<InstanceView>)>::empty() + spec_constructor_entries()
            =~= spec_constructor_entries());
    }
    reg
}

/// The scalar constructor of a base type: one overload per source
/// base type, each taking a scalar or vector and converting its
/// first element.
fn scalar_constructor(target: ParameterBaseType) -> (r: ConstEvalFunction)
    ensures
        r.wf(),
        r@ == spec_scalar_ctor_table(target),
{
    let builder = ConstEvalFunctionBuilder::new()
        .add_overload_1(
        ParameterType::new(ParameterBaseType::Bool, ParameterShape::GenericSV),
        EvalOp::ConstructScalar(target),
    )
        .add_overload_1(
        ParameterType::new(ParameterBaseType::Int, ParameterShape::GenericSV),
        EvalOp::ConstructScalar(target),
    )
        .add_overload_1(
        ParameterType::new(ParameterBaseType::UInt, ParameterShape::GenericSV),
        EvalOp::ConstructScalar(target),
    )
        .add_overload_1(
        ParameterType::new(ParameterBaseType::Float, ParameterShape::GenericSV),
        EvalOp::ConstructScalar(target),
    )
        .add_overload_1(
        ParameterType::new(ParameterBaseType::Double, ParameterShape::GenericSV),
        EvalOp::ConstructScalar(target),
    );
    proof {
        assert(spec_views_of_instances(builder.overloads@) =~= spec_scalar_ctor_instances(
            target,
        ));
    }
    builder.build()
}

/// The vector constructor of a shape and base type: one generic
/// instance that inspects the raw arguments.
fn vec_constructor(shape: BaseTypeShape, base: ParameterBaseType) -> (r: ConstEvalFunction)
    ensures
        r.wf(),
        r@ == spec_vec_ctor_table(shape, base),
{
    let builder = ConstEvalFunctionBuilder::new().add_generic(EvalOp::ConstructVec(shape, base));
    proof {
        assert(spec_views_of_instances(builder.overloads@) =~= seq![
            (InstanceView {
                prototype: None::<Seq<ParameterType>>,
                op: EvalOp::ConstructVec(shape, base),
            }),
        ]);
    }
    builder.build()
}

/// The matrix constructor of a shape and floating point base type.
fn mat_constructor(shape: BaseTypeShape, base: ParameterBaseType) -> (r: ConstEvalFunction)
    ensures
        r.wf(),
        r@ == spec_mat_ctor_table(shape, base),
{
    let builder = ConstEvalFunctionBuilder::new().add_generic(EvalOp::ConstructMat(shape, base));
    proof {
        assert(spec_views_of_instances(builder.overloads@) =~= seq![
            (InstanceView {
                prototype: None::<Seq<ParameterType>>,
                op: EvalOp::ConstructMat(shape, base),
            }),
        ]);
    }
    builder.build()
}

/// Equality symmetry at the dispatcher: the built-in equality table
/// gives one result however its two operands are ordered. Every
/// instance of the table is equality-shaped, and the fold itself is
/// symmetric, plain equality on the booleans and integers and the
/// IEEE comparison on the floating point families.
pub proof fn lemma_builtin_equal_symmetric(
    ot: OperatorTablesView,
    a: BaseValView,
    b: BaseValView,
)
    requires
        spec_builtin_tables(ot),
        a.wf(),
        b.wf(),
    ensures
        spec_eval_function(ot.binary_equal, seq![a, b]) == spec_eval_function(
            ot.binary_equal,
            seq![b, a],
        ),
{
    let s = spec_equal_instances();
    assert forall|k: int| 0 <= k < s.len() implies spec_equality_instance(#[trigger] s[k]) by {
        if k == 0 {
            assert(s[0].prototype.unwrap()[0] == s[0].prototype.unwrap()[1]);
        } else if k == 1 {
            assert(s[1].prototype.unwrap()[0] == s[1].prototype.unwrap()[1]);
        } else if k == 2 {
            assert(s[2].prototype.unwrap()[0] == s[2].prototype.unwrap()[1]);
        } else if k == 3 {
            assert(s[3].prototype.unwrap()[0] == s[3].prototype.unwrap()[1]);
        } else {
            assert(s[4].prototype.unwrap()[0] == s[4].prototype.unwrap()[1]);
        }
    }
    assert(ot.binary_equal == spec_sort(s) && (forall|k: int|
        0 <= k < s.len() ==> spec_equality_instance(#[trigger] s[k])));
    lemma_equal_dispatch_symmetric(ot.binary_equal, a, b);
}

// ---------------------------------------------------------------
// Construction round trip: a constructor call on a value's own
// scalar elements rebuilds the value
// ---------------------------------------------------------------

/// The scalar value carrying element `i` of a basic value, in the
/// value's own family: what the propagator makes of the element
/// literals that `spec_as_expr` emits.
pub open spec fn spec_elem_scalar(v: BaseValView, i: int) -> BaseValView {
    match v {
        BaseValView::Bool(s) => BaseValView::Bool(
            SvmView { shape: BaseTypeShape::Scalar, elems: seq![s.elems[i]] },
        ),
        BaseValView::Int(s) => BaseValView::Int(
            SvmView { shape: BaseTypeShape::Scalar, elems: seq![s.elems[i]] },
        ),
        BaseValView::UInt(s) => BaseValView::UInt(
            SvmView { shape: BaseTypeShape::Scalar, elems: seq![s.elems[i]] },
        ),
        BaseValView::Float(s) => BaseValView::Float(
            SvmView { shape: BaseTypeShape::Scalar, elems: seq![s.elems[i]] },
        ),
        BaseValView::Double(s) => BaseValView::Double(
            SvmView { shape: BaseTypeShape::Scalar, elems: seq![s.elems[i]] },
        ),
    }
}

/// The element scalars of a basic value, in column-major order.
pub open spec fn spec_scalar_params_of(v: BaseValView) -> Seq<BaseValView> {
    Seq::new(v.spec_shape().spec_width(), |i: int| spec_elem_scalar(v, i))
}


/// Flattening the element scalars of a boolean value through the
/// boolean target recovers the elements: same-family conversion is
/// the identity.
proof fn lemma_flatten_scalars_bool(elems: Seq<bool>, params: Seq<BaseValView>)
    requires
        params.len() == elems.len(),
        forall|i: int|
            0 <= i < params.len() ==> #[trigger] params[i] == BaseValView::Bool(
                SvmView { shape: BaseTypeShape::Scalar, elems: seq![elems[i]] },
            ),
    ensures
        spec_flatten::<bool>(params) == elems,
    decreases params.len(),
{
    if params.len() == 0 {
        assert(spec_flatten::<bool>(params) =~= elems);
    } else {
        assert(spec_conv_elems::<bool>(params.first()) =~= seq![elems.first()]);
        assert(forall|i: int|
            0 <= i < params.drop_first().len() ==> #[trigger] params.drop_first()[i]
                == BaseValView::Bool(
                SvmView { shape: BaseTypeShape::Scalar, elems: seq![elems.drop_first()[i]] },
            ));
        lemma_flatten_scalars_bool(elems.drop_first(), params.drop_first());
        assert(spec_flatten::<bool>(params) =~= elems);
    }
}

proof fn lemma_flatten_scalars_i32(elems: Seq<i32>, params: Seq<BaseValView>)
    requires
        params.len() == elems.len(),
        forall|i: int|
            0 <= i < params.len() ==> #[trigger] params[i] == BaseValView::Int(
                SvmView { shape: BaseTypeShape::Scalar, elems: seq![elems[i]] },
            ),
    ensures
        spec_flatten::<i32>(params) == elems,
    decreases params.len(),
{
    if params.len() == 0 {
        assert(spec_flatten::<i32>(params) =~= elems);
    } else {
        assert(spec_conv_elems::<i32>(params.first()) =~= seq![elems.first()]);
        assert(forall|i: int|
            0 <= i < params.drop_first().len() ==> #[trigger] params.drop_first()[i]
                == BaseValView::Int(
                SvmView { shape: BaseTypeShape::Scalar, elems: seq![elems.drop_first()[i]] },
            ));
        lemma_flatten_scalars_i32(elems.drop_first(), params.drop_first());
        assert(spec_flatten::<i32>(params) =~= elems);
    }
}

proof fn lemma_flatten_scalars_u32(elems: Seq<u32>, params: Seq<BaseValView>)
    requires
        params.len() == elems.len(),
        forall|i: int|
            0 <= i < params.len() ==> #[trigger] params[i] == BaseValView::UInt(
                SvmView { shape: BaseTypeShape::Scalar, elems: seq![elems[i]] },
            ),
    ensures
        spec_flatten::<u32>(params) == elems,
    decreases params.len(),
{
    if params.len() == 0 {
        assert(spec_flatten::<u32>(params) =~= elems);
    } else {
        assert(spec_conv_elems::<u32>(params.first()) =~= seq![elems.first()]);
        assert(forall|i: int|
            0 <= i < params.drop_first().len() ==> #[trigger] params.drop_first()[i]
                == BaseValView::UInt(
                SvmView { shape: BaseTypeShape::Scalar, elems: seq![elems.drop_first()[i]] },
            ));
        lemma_flatten_scalars_u32(elems.drop_first(), params.drop_first());
        assert(spec_flatten::<u32>(params) =~= elems);
    }
}

proof fn lemma_flatten_scalars_single(elems: Seq<F32Bits>, params: Seq<BaseValView>)
    requires
        params.len() == elems.len(),
        forall|i: int|
            0 <= i < params.len() ==> #[trigger] params[i] == BaseValView::Float(
                SvmView { shape: BaseTypeShape::Scalar, elems: seq![elems[i]] },
            ),
    ensures
        spec_flatten::<F32Bits>(params) == elems,
    decreases params.len(),
{
    if params.len() == 0 {
        assert(spec_flatten::<F32Bits>(params) =~= elems);
    } else {
        assert(spec_conv_elems::<F32Bits>(params.first()) =~= seq![elems.first()]);
        assert(forall|i: int|
            0 <= i < params.drop_first().len() ==> #[trigger] params.drop_first()[i]
                == BaseValView::Float(
                SvmView { shape: BaseTypeShape::Scalar, elems: seq![elems.drop_first()[i]] },
            ));
        lemma_flatten_scalars_single(elems.drop_first(), params.drop_first());
        assert(spec_flatten::<F32Bits>(params) =~= elems);
    }
}

proof fn lemma_flatten_scalars_double(elems: Seq<F64Bits>, params: Seq<BaseValView>)
    requires
        params.len() == elems.len(),
        forall|i: int|
            0 <= i < params.len() ==> #[trigger] params[i] == BaseValView::Double(
                SvmView { shape: BaseTypeShape::Scalar, elems: seq![elems[i]] },
            ),
    ensures
        spec_flatten::<F64Bits>(params) == elems,
    decreases params.len(),
{
    if params.len() == 0 {
        assert(spec_flatten::<F64Bits>(params) =~= elems);
    } else {
        assert(spec_conv_elems::<F64Bits>(params.first()) =~= seq![elems.first()]);
        assert(forall|i: int|
            0 <= i < params.drop_first().len() ==> #[trigger] params.drop_first()[i]
                == BaseValView::Double(
                SvmView { shape: BaseTypeShape::Scalar, elems: seq![elems.drop_first()[i]] },
            ));
        lemma_flatten_scalars_double(elems.drop_first(), params.drop_first());
        assert(spec_flatten::<F64Bits>(params) =~= elems);
    }
}

/// A vector constructor applied to a vector value's own element
/// scalars rebuilds the value: the elements flatten back in order,
/// same-family conversion is the identity, and exactly the vector's
/// width is available.
pub proof fn lemma_ctor_eval_vec(v: BaseValView)
    requires
        v.wf(),
        v.spec_shape().spec_is_vector(),
    ensures
        spec_eval_function(
            spec_vec_ctor_table(v.spec_shape(), ParameterBaseType::spec_from_const_val(v)),
            spec_scalar_params_of(v),
        ) == Some(v),
{
    let shape = v.spec_shape();
    let base = ParameterBaseType::spec_from_const_val(v);
    let params = spec_scalar_params_of(v);
    let n = shape.spec_width() as int;
    let iv = InstanceView { prototype: None::<Seq<ParameterType>>, op: EvalOp::ConstructVec(shape, base) };
    lemma_sort_singleton(iv);
    assert(spec_vec_ctor_table(shape, base) == seq![iv]);
    assert(2 <= n <= 4);
    assert(params.len() == n);
    match v {
        BaseValView::Bool(s) => {
            assert(forall|i: int|
                0 <= i < params.len() ==> #[trigger] params[i] == BaseValView::Bool(
                    SvmView { shape: BaseTypeShape::Scalar, elems: seq![s.elems[i]] },
                ));
            lemma_flatten_scalars_bool(s.elems, params);
            assert(spec_flatten::<bool>(params).take(n) =~= s.elems);
            assert(spec_pack(shape, spec_flatten::<bool>(params).take(n)) =~= s);
        },
        BaseValView::Int(s) => {
            assert(forall|i: int|
                0 <= i < params.len() ==> #[trigger] params[i] == BaseValView::Int(
                    SvmView { shape: BaseTypeShape::Scalar, elems: seq![s.elems[i]] },
                ));
            lemma_flatten_scalars_i32(s.elems, params);
            assert(spec_flatten::<i32>(params).take(n) =~= s.elems);
            assert(spec_pack(shape, spec_flatten::<i32>(params).take(n)) =~= s);
        },
        BaseValView::UInt(s) => {
            assert(forall|i: int|
                0 <= i < params.len() ==> #[trigger] params[i] == BaseValView::UInt(
                    SvmView { shape: BaseTypeShape::Scalar, elems: seq![s.elems[i]] },
                ));
            lemma_flatten_scalars_u32(s.elems, params);
            assert(spec_flatten::<u32>(params).take(n) =~= s.elems);
            assert(spec_pack(shape, spec_flatten::<u32>(params).take(n)) =~= s);
        },
        BaseValView::Float(s) => {
            assert(forall|i: int|
                0 <= i < params.len() ==> #[trigger] params[i] == BaseValView::Float(
                    SvmView { shape: BaseTypeShape::Scalar, elems: seq![s.elems[i]] },
                ));
            lemma_flatten_scalars_single(s.elems, params);
            assert(spec_flatten::<F32Bits>(params).take(n) =~= s.elems);
            assert(spec_pack(shape, spec_flatten::<F32Bits>(params).take(n)) =~= s);
        },
        BaseValView::Double(s) => {
            assert(forall|i: int|
                0 <= i < params.len() ==> #[trigger] params[i] == BaseValView::Double(
                    SvmView { shape: BaseTypeShape::Scalar, elems: seq![s.elems[i]] },
                ));
            lemma_flatten_scalars_double(s.elems, params);
            assert(spec_flatten::<F64Bits>(params).take(n) =~= s.elems);
            assert(spec_pack(shape, spec_flatten::<F64Bits>(params).take(n)) =~= s);
        },
    }
    assert(spec_construct_vec(shape, base, params) == Some(v));
    assert(spec_apply_instance(iv, params) == Some(v));
    assert(seq![iv].first() == iv);
    assert(spec_eval_function(seq![iv], params) == Some(v));
}

/// A matrix constructor applied to a matrix value's own element
/// scalars rebuilds the value through the flattening path.
pub proof fn lemma_ctor_eval_mat(v: BaseValView)
    requires
        v.wf(),
        v.spec_shape().spec_is_matrix(),
    ensures
        spec_eval_function(
            spec_mat_ctor_table(v.spec_shape(), ParameterBaseType::spec_from_const_val(v)),
            spec_scalar_params_of(v),
        ) == Some(v),
{
    let shape = v.spec_shape();
    let base = ParameterBaseType::spec_from_const_val(v);
    let params = spec_scalar_params_of(v);
    let rows = shape.spec_rows() as int;
    let cols = shape.spec_cols() as int;
    let iv = InstanceView { prototype: None::<Seq<ParameterType>>, op: EvalOp::ConstructMat(shape, base) };
    lemma_sort_singleton(iv);
    assert(spec_mat_ctor_table(shape, base) == seq![iv]);
    crate::shape::lemma_width_rows_cols(shape);
    assert(params.len() == rows * cols);
    assert(params.len() >= 4);
    match v {
        BaseValView::Float(s) => {
            assert(forall|i: int|
                0 <= i < params.len() ==> #[trigger] params[i] == BaseValView::Float(
                    SvmView { shape: BaseTypeShape::Scalar, elems: seq![s.elems[i]] },
                ));
            lemma_flatten_scalars_single(s.elems, params);
            assert(spec_flatten::<F32Bits>(params).take(rows * cols) =~= s.elems);
            assert(spec_pack(shape, spec_flatten::<F32Bits>(params).take(rows * cols)) =~= s);
        },
        BaseValView::Double(s) => {
            assert(forall|i: int|
                0 <= i < params.len() ==> #[trigger] params[i] == BaseValView::Double(
                    SvmView { shape: BaseTypeShape::Scalar, elems: seq![s.elems[i]] },
                ));
            lemma_flatten_scalars_double(s.elems, params);
            assert(spec_flatten::<F64Bits>(params).take(rows * cols) =~= s.elems);
            assert(spec_pack(shape, spec_flatten::<F64Bits>(params).take(rows * cols)) =~= s);
        },
        _ => {
            // the boolean and integer families never hold a matrix
            assert(false);
        },
    }
    assert(spec_construct_mat(shape, base, params) == Some(v));
    assert(spec_apply_instance(iv, params) == Some(v));
    assert(seq![iv].first() == iv);
    assert(spec_eval_function(seq![iv], params) == Some(v));
}

} // verus!
