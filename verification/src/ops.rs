use vstd::prelude::*;
use crate::shape::BaseTypeShape;
use crate::scalar::{ScalarElem, UnaryElemOp, BinElemOp, CmpElemOp, F32Bits, F64Bits};
use crate::scalar::{single_add, single_mul, double_add, double_mul};
use crate::value::{ConstSVMVal, SvmView, ConstBaseVal, BaseValView, opt_view, repeat_elem};
use crate::value::{spec_map_un, spec_zip_bin, spec_eq_fold, map_un, zip_bin, eq_fold};
use crate::value::{conv_int_to_uint, conv_int_to_single, conv_uint_to_single, conv_int_to_double,
    conv_uint_to_double, conv_single_to_double};
use crate::value::{spec_seq_int_to_uint, spec_seq_int_to_single, spec_seq_uint_to_single,
    spec_seq_int_to_double, spec_seq_uint_to_double, spec_seq_single_to_double};
use crate::param::ParameterBaseType;

verus! {

broadcast use {vstd::std_specs::vec::group_vec_axioms, vstd::seq::group_seq_axioms};

// ---------------------------------------------------------------
// Unary, binary, comparison and equality operations lifted from the
// element algebra to whole basic values.
// ---------------------------------------------------------------

/// Component-wise unary application; absent where the operation is
/// not defined on the value's base type.
pub open spec fn spec_apply_un(op: UnaryElemOp, v: BaseValView) -> Option<BaseValView> {
    match v {
        BaseValView::Bool(s) => match spec_map_un(op, s) {
            Some(w) => Some(BaseValView::Bool(w)),
            None => None,
        },
        BaseValView::Int(s) => match spec_map_un(op, s) {
            Some(w) => Some(BaseValView::Int(w)),
            None => None,
        },
        BaseValView::UInt(s) => match spec_map_un(op, s) {
            Some(w) => Some(BaseValView::UInt(w)),
            None => None,
        },
        BaseValView::Float(s) => match spec_map_un(op, s) {
            Some(w) => Some(BaseValView::Float(w)),
            None => None,
        },
        BaseValView::Double(s) => match spec_map_un(op, s) {
            Some(w) => Some(BaseValView::Double(w)),
            None => None,
        },
    }
}

pub fn apply_un(op: UnaryElemOp, v: &ConstBaseVal) -> (r: Option<ConstBaseVal>)
    ensures
        opt_view(r) == spec_apply_un(op, v@),
{
    match v {
        ConstBaseVal::Bool(s) => match map_un(op, s) {
            Some(w) => Some(ConstBaseVal::Bool(w)),
            None => None,
        },
        ConstBaseVal::Int(s) => match map_un(op, s) {
            Some(w) => Some(ConstBaseVal::Int(w)),
            None => None,
        },
        ConstBaseVal::UInt(s) => match map_un(op, s) {
            Some(w) => Some(ConstBaseVal::UInt(w)),
            None => None,
        },
        ConstBaseVal::Float(s) => match map_un(op, s) {
            Some(w) => Some(ConstBaseVal::Float(w)),
            None => None,
        },
        ConstBaseVal::Double(s) => match map_un(op, s) {
            Some(w) => Some(ConstBaseVal::Double(w)),
            None => None,
        },
    }
}

/// Component-wise binary application with scalar broadcast; absent
/// across distinct base-type families.
pub open spec fn spec_apply_bin(op: BinElemOp, a: BaseValView, b: BaseValView) -> Option<
    BaseValView,
> {
    match a {
        BaseValView::Bool(x) => match b {
            BaseValView::Bool(y) => match spec_zip_bin(op, x, y) {
                Some(w) => Some(BaseValView::Bool(w)),
                None => None,
            },
            _ => None,
        },
        BaseValView::Int(x) => match b {
            BaseValView::Int(y) => match spec_zip_bin(op, x, y) {
                Some(w) => Some(BaseValView::Int(w)),
                None => None,
            },
            _ => None,
        },
        BaseValView::UInt(x) => match b {
            BaseValView::UInt(y) => match spec_zip_bin(op, x, y) {
                Some(w) => Some(BaseValView::UInt(w)),
                None => None,
            },
            _ => None,
        },
        BaseValView::Float(x) => match b {
            BaseValView::Float(y) => match spec_zip_bin(op, x, y) {
                Some(w) => Some(BaseValView::Float(w)),
                None => None,
            },
            _ => None,
        },
        BaseValView::Double(x) => match b {
            BaseValView::Double(y) => match spec_zip_bin(op, x, y) {
                Some(w) => Some(BaseValView::Double(w)),
                None => None,
            },
            _ => None,
        },
    }
}

pub fn apply_bin(op: BinElemOp, a: &ConstBaseVal, b: &ConstBaseVal) -> (r: Option<ConstBaseVal>)
    requires
        a@.wf(),
        b@.wf(),
    ensures
        opt_view(r) == spec_apply_bin(op, a@, b@),
{
    match a {
        ConstBaseVal::Bool(x) => match b {
            ConstBaseVal::Bool(y) => match zip_bin(op, x, y) {
                Some(w) => Some(ConstBaseVal::Bool(w)),
                None => None,
            },
            _ => None,
        },
        ConstBaseVal::Int(x) => match b {
            ConstBaseVal::Int(y) => match zip_bin(op, x, y) {
                Some(w) => Some(ConstBaseVal::Int(w)),
                None => None,
            },
            _ => None,
        },
        ConstBaseVal::UInt(x) => match b {
            ConstBaseVal::UInt(y) => match zip_bin(op, x, y) {
                Some(w) => Some(ConstBaseVal::UInt(w)),
                None => None,
            },
            _ => None,
        },
        ConstBaseVal::Float(x) => match b {
            ConstBaseVal::Float(y) => match zip_bin(op, x, y) {
                Some(w) => Some(ConstBaseVal::Float(w)),
                None => None,
            },
            _ => None,
        },
        ConstBaseVal::Double(x) => match b {
            ConstBaseVal::Double(y) => match zip_bin(op, x, y) {
                Some(w) => Some(ConstBaseVal::Double(w)),
                None => None,
            },
            _ => None,
        },
    }
}

/// A scalar boolean value.
pub open spec fn spec_bool_scalar(b: bool) -> BaseValView {
    BaseValView::Bool(SvmView { shape: BaseTypeShape::Scalar, elems: seq![b] })
}

/// An ordering comparison of two scalar numeric values of one base
/// type; absent on vectors, matrices, booleans and mixed families.
pub open spec fn spec_apply_cmp(op: CmpElemOp, a: BaseValView, b: BaseValView) -> Option<
    BaseValView,
> {
    if !a.spec_shape().spec_is_scalar() || !b.spec_shape().spec_is_scalar() {
        None
    } else {
        match a {
            BaseValView::Int(x) => match b {
                BaseValView::Int(y) => match i32::cmp_spec(op, x.elems[0], y.elems[0]) {
                    Some(r) => Some(spec_bool_scalar(r)),
                    None => None,
                },
                _ => None,
            },
            BaseValView::UInt(x) => match b {
                BaseValView::UInt(y) => match u32::cmp_spec(op, x.elems[0], y.elems[0]) {
                    Some(r) => Some(spec_bool_scalar(r)),
                    None => None,
                },
                _ => None,
            },
            BaseValView::Float(x) => match b {
                BaseValView::Float(y) => match F32Bits::cmp_spec(op, x.elems[0], y.elems[0]) {
                    Some(r) => Some(spec_bool_scalar(r)),
                    None => None,
                },
                _ => None,
            },
            BaseValView::Double(x) => match b {
                BaseValView::Double(y) => match F64Bits::cmp_spec(op, x.elems[0], y.elems[0]) {
                    Some(r) => Some(spec_bool_scalar(r)),
                    None => None,
                },
                _ => None,
            },
            _ => None,
        }
    }
}

pub fn apply_cmp(op: CmpElemOp, a: &ConstBaseVal, b: &ConstBaseVal) -> (r: Option<ConstBaseVal>)
    requires
        a@.wf(),
        b@.wf(),
    ensures
        opt_view(r) == spec_apply_cmp(op, a@, b@),
{
    if !a.get_shape().is_scalar() || !b.get_shape().is_scalar() {
        return None;
    }
    match a {
        ConstBaseVal::Int(x) => match b {
            ConstBaseVal::Int(y) => match i32::cmp_op(op, x.elems[0], y.elems[0]) {
                Some(r) => Some(ConstBaseVal::new_bool(r)),
                None => None,
            },
            _ => None,
        },
        ConstBaseVal::UInt(x) => match b {
            ConstBaseVal::UInt(y) => match u32::cmp_op(op, x.elems[0], y.elems[0]) {
                Some(r) => Some(ConstBaseVal::new_bool(r)),
                None => None,
            },
            _ => None,
        },
        ConstBaseVal::Float(x) => match b {
            ConstBaseVal::Float(y) => match F32Bits::cmp_op(op, x.elems[0], y.elems[0]) {
                Some(r) => Some(ConstBaseVal::new_bool(r)),
                None => None,
            },
            _ => None,
        },
        ConstBaseVal::Double(x) => match b {
            ConstBaseVal::Double(y) => match F64Bits::cmp_op(op, x.elems[0], y.elems[0]) {
                Some(r) => Some(ConstBaseVal::new_bool(r)),
                None => None,
            },
            _ => None,
        },
        _ => None,
    }
}

/// Whole-value equality of two values of one base-type family: the
/// conjunction of the element equalities (the IEEE comparison on the
/// floating point families); absent on a shape mismatch or across
/// families.
pub open spec fn spec_apply_equal(a: BaseValView, b: BaseValView) -> Option<BaseValView> {
    match a {
        BaseValView::Bool(x) => match b {
            BaseValView::Bool(y) => match spec_eq_fold(x, y) {
                Some(r) => Some(spec_bool_scalar(r)),
                None => None,
            },
            _ => None,
        },
        BaseValView::Int(x) => match b {
            BaseValView::Int(y) => match spec_eq_fold(x, y) {
                Some(r) => Some(spec_bool_scalar(r)),
                None => None,
            },
            _ => None,
        },
        BaseValView::UInt(x) => match b {
            BaseValView::UInt(y) => match spec_eq_fold(x, y) {
                Some(r) => Some(spec_bool_scalar(r)),
                None => None,
            },
            _ => None,
        },
        BaseValView::Float(x) => match b {
            BaseValView::Float(y) => match spec_eq_fold(x, y) {
                Some(r) => Some(spec_bool_scalar(r)),
                None => None,
            },
            _ => None,
        },
        BaseValView::Double(x) => match b {
            BaseValView::Double(y) => match spec_eq_fold(x, y) {
                Some(r) => Some(spec_bool_scalar(r)),
                None => None,
            },
            _ => None,
        },
    }
}

pub fn apply_equal(a: &ConstBaseVal, b: &ConstBaseVal) -> (r: Option<ConstBaseVal>)
    requires
        a@.wf(),
        b@.wf(),
    ensures
        opt_view(r) == spec_apply_equal(a@, b@),
{
    match a {
        ConstBaseVal::Bool(x) => match b {
            ConstBaseVal::Bool(y) => match eq_fold(x, y) {
                Some(r) => Some(ConstBaseVal::new_bool(r)),
                None => None,
            },
            _ => None,
        },
        ConstBaseVal::Int(x) => match b {
            ConstBaseVal::Int(y) => match eq_fold(x, y) {
                Some(r) => Some(ConstBaseVal::new_bool(r)),
                None => None,
            },
            _ => None,
        },
        ConstBaseVal::UInt(x) => match b {
            ConstBaseVal::UInt(y) => match eq_fold(x, y) {
                Some(r) => Some(ConstBaseVal::new_bool(r)),
                None => None,
            },
            _ => None,
        },
        ConstBaseVal::Float(x) => match b {
            ConstBaseVal::Float(y) => match eq_fold(x, y) {
                Some(r) => Some(ConstBaseVal::new_bool(r)),
                None => None,
            },
            _ => None,
        },
        ConstBaseVal::Double(x) => match b {
            ConstBaseVal::Double(y) => match eq_fold(x, y) {
                Some(r) => Some(ConstBaseVal::new_bool(r)),
                None => None,
            },
            _ => None,
        },
    }
}

// ---------------------------------------------------------------
// Shifts
// ---------------------------------------------------------------

/// The direction of a shift operator.
#[derive(Copy, Clone, PartialEq, Eq, Structural, Debug)]
pub enum ShiftDir {
    Left,
    Right,
}

/// The shift amounts an integer value contributes: each element must
/// be in range for a 32-bit shift, else the whole operation is
/// absent (the language leaves such shifts undefined, and the engine
/// refuses to fold them).
pub open spec fn spec_amounts_of(v: BaseValView) -> Option<Seq<u32>> {
    match v {
        BaseValView::Int(s) => if forall|i: int| 0 <= i < s.elems.len() ==> 0 <= #[trigger] s.elems[i] < 32 {
            Some(Seq::new(s.elems.len(), |i: int| s.elems[i] as u32))
        } else {
            None
        },
        BaseValView::UInt(s) => if forall|i: int| 0 <= i < s.elems.len() ==> #[trigger] s.elems[i] < 32 {
            Some(s.elems)
        } else {
            None
        },
        _ => None,
    }
}

/// The shape of the right-hand side of a shift.
pub open spec fn spec_rhs_shape(v: BaseValView) -> BaseTypeShape {
    v.spec_shape()
}

pub open spec fn spec_shift_elem_i32(dir: ShiftDir, a: i32, amt: u32) -> i32 {
    match dir {
        ShiftDir::Left => i32::wrapping_shl(a, amt),
        ShiftDir::Right => i32::wrapping_shr(a, amt),
    }
}

pub open spec fn spec_shift_elem_u32(dir: ShiftDir, a: u32, amt: u32) -> u32 {
    match dir {
        ShiftDir::Left => u32::wrapping_shl(a, amt),
        ShiftDir::Right => u32::wrapping_shr(a, amt),
    }
}

/// A shift of an integer scalar-or-vector by per-component amounts:
/// a scalar amount broadcasts, amounts of the value's own shape pair
/// component-wise, and any other pairing is absent.
pub open spec fn spec_shift_i32(
    dir: ShiftDir,
    lhs: SvmView<i32>,
    amts: Seq<u32>,
    rhs_shape: BaseTypeShape,
) -> Option<SvmView<i32>> {
    if rhs_shape.spec_is_scalar() {
        Some(
            SvmView {
                shape: lhs.shape,
                elems: Seq::new(
                    lhs.elems.len(),
                    |i: int| spec_shift_elem_i32(dir, lhs.elems[i], amts[0]),
                ),
            },
        )
    } else if rhs_shape == lhs.shape {
        Some(
            SvmView {
                shape: lhs.shape,
                elems: Seq::new(
                    lhs.elems.len(),
                    |i: int| spec_shift_elem_i32(dir, lhs.elems[i], amts[i]),
                ),
            },
        )
    } else {
        None
    }
}

pub open spec fn spec_shift_u32(
    dir: ShiftDir,
    lhs: SvmView<u32>,
    amts: Seq<u32>,
    rhs_shape: BaseTypeShape,
) -> Option<SvmView<u32>> {
    if rhs_shape.spec_is_scalar() {
        Some(
            SvmView {
                shape: lhs.shape,
                elems: Seq::new(
                    lhs.elems.len(),
                    |i: int| spec_shift_elem_u32(dir, lhs.elems[i], amts[0]),
                ),
            },
        )
    } else if rhs_shape == lhs.shape {
        Some(
            SvmView {
                shape: lhs.shape,
                elems: Seq::new(
                    lhs.elems.len(),
                    |i: int| spec_shift_elem_u32(dir, lhs.elems[i], amts[i]),
                ),
            },
        )
    } else {
        None
    }
}

/// The whole shift operation: the left-hand side is an integer
/// scalar-or-vector, the right-hand side an integer scalar or an
/// integer vector of the same shape; out-of-range amounts make the
/// operation absent.
pub open spec fn spec_apply_shift(dir: ShiftDir, a: BaseValView, b: BaseValView) -> Option<
    BaseValView,
> {
    match spec_amounts_of(b) {
        None => None,
        Some(amts) => match a {
            BaseValView::Int(lhs) => match spec_shift_i32(dir, lhs, amts, b.spec_shape()) {
                Some(w) => Some(BaseValView::Int(w)),
                None => None,
            },
            BaseValView::UInt(lhs) => match spec_shift_u32(dir, lhs, amts, b.spec_shape()) {
                Some(w) => Some(BaseValView::UInt(w)),
                None => None,
            },
            _ => None,
        },
    }
}

/// Collects the shift amounts of the right-hand side, or nothing
/// where it is not an integer value or an amount is out of range.
fn amounts_of(v: &ConstBaseVal) -> (r: Option<Vec<u32>>)
    ensures
        match r {
            Some(am) => spec_amounts_of(v@) == Some(am@),
            None => spec_amounts_of(v@) is None,
        },
{
    match v {
        ConstBaseVal::Int(s) => {
            let mut out: Vec<u32> = Vec::new();
            let mut i: usize = 0;
            while i < s.elems.len()
                invariant
                    v@ == BaseValView::Int(s@),
                    0 <= i <= s.elems@.len(),
                    out@.len() == i as int,
                    forall|j: int| 0 <= j < i as int ==> 0 <= #[trigger] s.elems@[j] < 32,
                    forall|j: int| 0 <= j < i as int ==> out@[j] == s.elems@[j] as u32,
                decreases s.elems@.len() - i,
            {
                let x = s.elems[i];
                if x < 0 || x >= 32 {
                    proof {
                        let es = s@.elems;
                        assert(0 <= (i as int) && (i as int) < es.len());
                        assert(!(0 <= es[i as int] < 32));
                        if spec_amounts_of(v@) is Some {
                            assert(forall|k: int|
                                0 <= k < es.len() ==> 0 <= #[trigger] es[k] < 32);
                            assert(0 <= es[i as int] < 32);
                        }
                    }
                    return None;
                }
                out.push(x as u32);
                i += 1;
            }
            proof {
                assert(out@ =~= Seq::new(s.elems@.len(), |i: int| s.elems@[i] as u32));
            }
            Some(out)
        },
        ConstBaseVal::UInt(s) => {
            let mut out: Vec<u32> = Vec::new();
            let mut i: usize = 0;
            while i < s.elems.len()
                invariant
                    v@ == BaseValView::UInt(s@),
                    0 <= i <= s.elems@.len(),
                    out@.len() == i as int,
                    forall|j: int| 0 <= j < i as int ==> #[trigger] s.elems@[j] < 32,
                    forall|j: int| 0 <= j < i as int ==> out@[j] == s.elems@[j],
                decreases s.elems@.len() - i,
            {
                let x = s.elems[i];
                if x >= 32 {
                    proof {
                        let es = s@.elems;
                        assert(0 <= (i as int) && (i as int) < es.len());
                        assert(!(es[i as int] < 32));
                        if spec_amounts_of(v@) is Some {
                            assert(forall|k: int| 0 <= k < es.len() ==> #[trigger] es[k] < 32);
                            assert(es[i as int] < 32);
                        }
                    }
                    return None;
                }
                out.push(x);
                i += 1;
            }
            proof {
                assert(out@ =~= s.elems@);
            }
            Some(out)
        },
        _ => None,
    }
}

pub fn apply_shift(dir: ShiftDir, a: &ConstBaseVal, b: &ConstBaseVal) -> (r: Option<ConstBaseVal>)
    requires
        a@.wf(),
        b@.wf(),
    ensures
        opt_view(r) == spec_apply_shift(dir, a@, b@),
{
    let amts = match amounts_of(b) {
        Some(am) => am,
        None => {
            return None;
        },
    };
    let rhs_scalar = b.get_shape().is_scalar();
    let ghost rhs_shape = b@.spec_shape();
    match a {
        ConstBaseVal::Int(lhs) => {
            if rhs_scalar || b.get_shape() == lhs.get_shape() {
                let mut out: Vec<i32> = Vec::new();
                let mut i: usize = 0;
                while i < lhs.elems.len()
                    invariant
                        0 <= i <= lhs.elems@.len(),
                        out@.len() == i as int,
                        rhs_scalar == rhs_shape.spec_is_scalar(),
                        rhs_scalar ==> amts@.len() >= 1,
                        !rhs_scalar ==> amts@.len() == lhs.elems@.len(),
                        forall|j: int|
                            0 <= j < i as int ==> out@[j] == spec_shift_elem_i32(
                                dir,
                                lhs.elems@[j],
                                if rhs_shape.spec_is_scalar() {
                                    amts@[0]
                                } else {
                                    amts@[j]
                                },
                            ),
                    decreases lhs.elems@.len() - i,
                {
                    let amt = if rhs_scalar {
                        amts[0]
                    } else {
                        amts[i]
                    };
                    let x = lhs.elems[i];
                    let shifted = match dir {
                        ShiftDir::Left => x.wrapping_shl(amt),
                        ShiftDir::Right => x.wrapping_shr(amt),
                    };
                    out.push(shifted);
                    i += 1;
                }
                let res = ConstSVMVal { shape: lhs.shape, elems: out };
                proof {
                    if rhs_shape.spec_is_scalar() {
                        assert(res@.elems =~= Seq::new(
                            lhs.elems@.len(),
                            |i: int| spec_shift_elem_i32(dir, lhs.elems@[i], amts@[0]),
                        ));
                    } else {
                        assert(res@.elems =~= Seq::new(
                            lhs.elems@.len(),
                            |i: int| spec_shift_elem_i32(dir, lhs.elems@[i], amts@[i]),
                        ));
                    }
                }
                Some(ConstBaseVal::Int(res))
            } else {
                None
            }
        },
        ConstBaseVal::UInt(lhs) => {
            if rhs_scalar || b.get_shape() == lhs.get_shape() {
                let mut out: Vec<u32> = Vec::new();
                let mut i: usize = 0;
                while i < lhs.elems.len()
                    invariant
                        0 <= i <= lhs.elems@.len(),
                        out@.len() == i as int,
                        rhs_scalar == rhs_shape.spec_is_scalar(),
                        rhs_scalar ==> amts@.len() >= 1,
                        !rhs_scalar ==> amts@.len() == lhs.elems@.len(),
                        forall|j: int|
                            0 <= j < i as int ==> out@[j] == spec_shift_elem_u32(
                                dir,
                                lhs.elems@[j],
                                if rhs_shape.spec_is_scalar() {
                                    amts@[0]
                                } else {
                                    amts@[j]
                                },
                            ),
                    decreases lhs.elems@.len() - i,
                {
                    let amt = if rhs_scalar {
                        amts[0]
                    } else {
                        amts[i]
                    };
                    let x = lhs.elems[i];
                    let shifted = match dir {
                        ShiftDir::Left => x.wrapping_shl(amt),
                        ShiftDir::Right => x.wrapping_shr(amt),
                    };
                    out.push(shifted);
                    i += 1;
                }
                let res = ConstSVMVal { shape: lhs.shape, elems: out };
                proof {
                    if rhs_shape.spec_is_scalar() {
                        assert(res@.elems =~= Seq::new(
                            lhs.elems@.len(),
                            |i: int| spec_shift_elem_u32(dir, lhs.elems@[i], amts@[0]),
                        ));
                    } else {
                        assert(res@.elems =~= Seq::new(
                            lhs.elems@.len(),
                            |i: int| spec_shift_elem_u32(dir, lhs.elems@[i], amts@[i]),
                        ));
                    }
                }
                Some(ConstBaseVal::UInt(res))
            } else {
                None
            }
        },
        _ => None,
    }
}

// ---------------------------------------------------------------
// Matrix-vector and vector-matrix products
// ---------------------------------------------------------------

/// The left fold of IEEE sums of products over the first `n`
/// component pairs, in ascending index order.
pub open spec fn spec_dot<T: ScalarElem>(a: Seq<T>, b: Seq<T>, n: int) -> T
    decreases n,
{
    if n <= 1 {
        T::bin_spec(BinElemOp::Mul, a[0], b[0]).unwrap()
    } else {
        T::bin_spec(
            BinElemOp::Add,
            spec_dot(a, b, n - 1),
            T::bin_spec(BinElemOp::Mul, a[n - 1], b[n - 1]).unwrap(),
        ).unwrap()
    }
}

/// Row `r` of a column-major matrix store.
pub open spec fn spec_mat_row<T>(m: Seq<T>, rows: int, cols: int, r: int) -> Seq<T> {
    Seq::new(cols as nat, |c: int| m[c * rows + r])
}

/// Column `c` of a column-major matrix store.
pub open spec fn spec_mat_col<T>(m: Seq<T>, rows: int, c: int) -> Seq<T> {
    Seq::new(rows as nat, |r: int| m[c * rows + r])
}

/// The linear-algebra products the multiplication operator adds on
/// top of the component-wise overloads: matrix times column vector
/// and row vector times matrix, whenever the inner dimensions agree;
/// the result shape is given by the outer dimensions.
pub open spec fn spec_linmul<T: ScalarElem>(a: SvmView<T>, b: SvmView<T>) -> Option<SvmView<T>> {
    if a.shape.spec_is_matrix() && b.shape.spec_is_vector() && b.shape.spec_rows()
        == a.shape.spec_cols() {
        Some(
            SvmView {
                shape: BaseTypeShape::spec_vec_of(a.shape.spec_rows()),
                elems: Seq::new(
                    a.shape.spec_rows(),
                    |r: int|
                        spec_dot(
                            spec_mat_row(
                                a.elems,
                                a.shape.spec_rows() as int,
                                a.shape.spec_cols() as int,
                                r,
                            ),
                            b.elems,
                            a.shape.spec_cols() as int,
                        ),
                ),
            },
        )
    } else if a.shape.spec_is_vector() && b.shape.spec_is_matrix() && a.shape.spec_rows()
        == b.shape.spec_rows() {
        Some(
            SvmView {
                shape: BaseTypeShape::spec_vec_of(b.shape.spec_cols()),
                elems: Seq::new(
                    b.shape.spec_cols(),
                    |c: int|
                        spec_dot(
                            a.elems,
                            spec_mat_col(b.elems, b.shape.spec_rows() as int, c),
                            b.shape.spec_rows() as int,
                        ),
                ),
            },
        )
    } else {
        None
    }
}

/// The product overloads across the two floating point families;
/// absent on every other pairing.
pub open spec fn spec_apply_linmul(a: BaseValView, b: BaseValView) -> Option<BaseValView> {
    match a {
        BaseValView::Float(x) => match b {
            BaseValView::Float(y) => match spec_linmul(x, y) {
                Some(w) => Some(BaseValView::Float(w)),
                None => None,
            },
            _ => None,
        },
        BaseValView::Double(x) => match b {
            BaseValView::Double(y) => match spec_linmul(x, y) {
                Some(w) => Some(BaseValView::Double(w)),
                None => None,
            },
            _ => None,
        },
        _ => None,
    }
}

fn dot_single(a: &Vec<F32Bits>, b: &Vec<F32Bits>, n: usize) -> (r: F32Bits)
    requires
        1 <= n,
        n <= a@.len(),
        n <= b@.len(),
    ensures
        r == spec_dot(a@, b@, n as int),
{
    let mut acc = single_mul(a[0], b[0]);
    let mut i: usize = 1;
    while i < n
        invariant
            1 <= i <= n,
            n <= a@.len(),
            n <= b@.len(),
            acc == spec_dot(a@, b@, i as int),
        decreases n - i,
    {
        acc = single_add(acc, single_mul(a[i], b[i]));
        i += 1;
    }
    acc
}

fn dot_double(a: &Vec<F64Bits>, b: &Vec<F64Bits>, n: usize) -> (r: F64Bits)
    requires
        1 <= n,
        n <= a@.len(),
        n <= b@.len(),
    ensures
        r == spec_dot(a@, b@, n as int),
{
    let mut acc = double_mul(a[0], b[0]);
    let mut i: usize = 1;
    while i < n
        invariant
            1 <= i <= n,
            n <= a@.len(),
            n <= b@.len(),
            acc == spec_dot(a@, b@, i as int),
        decreases n - i,
    {
        acc = double_add(acc, double_mul(a[i], b[i]));
        i += 1;
    }
    acc
}

fn gather_row_single(m: &Vec<F32Bits>, rows: usize, cols: usize, r: usize) -> (out: Vec<F32Bits>)
    requires
        r < rows,
        m@.len() == rows * cols,
        rows >= 1,
        cols >= 1,
        rows <= 4,
        cols <= 4,
    ensures
        out@ == spec_mat_row(m@, rows as int, cols as int, r as int),
{
    let mut out: Vec<F32Bits> = Vec::new();
    let mut c: usize = 0;
    while c < cols
        invariant
            r < rows,
            m@.len() == rows * cols,
            rows >= 1,
            cols >= 1,
            rows <= 4,
            cols <= 4,
            0 <= c <= cols,
            out@.len() == c as int,
            forall|j: int| 0 <= j < c as int ==> out@[j] == m@[j * (rows as int) + r],
        decreases cols - c,
    {
        proof {
            assert((c as int) * (rows as int) + r < (rows as int) * (cols as int))
                by (nonlinear_arith)
                requires
                    0 <= c as int,
                    (c as int) < cols as int,
                    0 <= r < rows as int,
                    rows as int >= 1,
            ;
            assert((c as int) * (rows as int) <= 16) by (nonlinear_arith)
                requires
                    0 <= c as int,
                    (c as int) <= 4,
                    0 <= rows as int,
                    (rows as int) <= 4,
            ;
        }
        out.push(m[c * rows + r]);
        c += 1;
    }
    proof {
        assert(out@ =~= spec_mat_row(m@, rows as int, cols as int, r as int));
    }
    out
}

fn gather_row_double(m: &Vec<F64Bits>, rows: usize, cols: usize, r: usize) -> (out: Vec<F64Bits>)
    requires
        r < rows,
        m@.len() == rows * cols,
        rows >= 1,
        cols >= 1,
        rows <= 4,
        cols <= 4,
    ensures
        out@ == spec_mat_row(m@, rows as int, cols as int, r as int),
{
    let mut out: Vec<F64Bits> = Vec::new();
    let mut c: usize = 0;
    while c < cols
        invariant
            r < rows,
            m@.len() == rows * cols,
            rows >= 1,
            cols >= 1,
            rows <= 4,
            cols <= 4,
            0 <= c <= cols,
            out@.len() == c as int,
            forall|j: int| 0 <= j < c as int ==> out@[j] == m@[j * (rows as int) + r],
        decreases cols - c,
    {
        proof {
            assert((c as int) * (rows as int) + r < (rows as int) * (cols as int))
                by (nonlinear_arith)
                requires
                    0 <= c as int,
                    (c as int) < cols as int,
                    0 <= r < rows as int,
                    rows as int >= 1,
            ;
            assert((c as int) * (rows as int) <= 16) by (nonlinear_arith)
                requires
                    0 <= c as int,
                    (c as int) <= 4,
                    0 <= rows as int,
                    (rows as int) <= 4,
            ;
        }
        out.push(m[c * rows + r]);
        c += 1;
    }
    proof {
        assert(out@ =~= spec_mat_row(m@, rows as int, cols as int, r as int));
    }
    out
}

fn gather_col_single(m: &Vec<F32Bits>, rows: usize, c: usize, cols: usize) -> (out: Vec<F32Bits>)
    requires
        c < cols,
        m@.len() == rows * cols,
        rows >= 1,
        cols >= 1,
        rows <= 4,
        cols <= 4,
    ensures
        out@ == spec_mat_col(m@, rows as int, c as int),
{
    let mut out: Vec<F32Bits> = Vec::new();
    let mut r: usize = 0;
    while r < rows
        invariant
            c < cols,
            m@.len() == rows * cols,
            rows >= 1,
            cols >= 1,
            rows <= 4,
            cols <= 4,
            0 <= r <= rows,
            out@.len() == r as int,
            forall|j: int| 0 <= j < r as int ==> out@[j] == m@[(c as int) * (rows as int) + j],
        decreases rows - r,
    {
        proof {
            assert((c as int) * (rows as int) + r < (rows as int) * (cols as int))
                by (nonlinear_arith)
                requires
                    0 <= c as int,
                    (c as int) < cols as int,
                    0 <= r < rows as int,
                    rows as int >= 1,
            ;
            assert((c as int) * (rows as int) <= 16) by (nonlinear_arith)
                requires
                    0 <= c as int,
                    (c as int) <= 4,
                    0 <= rows as int,
                    (rows as int) <= 4,
            ;
        }
        out.push(m[c * rows + r]);
        r += 1;
    }
    proof {
        assert(out@ =~= spec_mat_col(m@, rows as int, c as int));
    }
    out
}

fn gather_col_double(m: &Vec<F64Bits>, rows: usize, c: usize, cols: usize) -> (out: Vec<F64Bits>)
    requires
        c < cols,
        m@.len() == rows * cols,
        rows >= 1,
        cols >= 1,
        rows <= 4,
        cols <= 4,
    ensures
        out@ == spec_mat_col(m@, rows as int, c as int),
{
    let mut out: Vec<F64Bits> = Vec::new();
    let mut r: usize = 0;
    while r < rows
        invariant
            c < cols,
            m@.len() == rows * cols,
            rows >= 1,
            cols >= 1,
            rows <= 4,
            cols <= 4,
            0 <= r <= rows,
            out@.len() == r as int,
            forall|j: int| 0 <= j < r as int ==> out@[j] == m@[(c as int) * (rows as int) + j],
        decreases rows - r,
    {
        proof {
            assert((c as int) * (rows as int) + r < (rows as int) * (cols as int))
                by (nonlinear_arith)
                requires
                    0 <= c as int,
                    (c as int) < cols as int,
                    0 <= r < rows as int,
                    rows as int >= 1,
            ;
            assert((c as int) * (rows as int) <= 16) by (nonlinear_arith)
                requires
                    0 <= c as int,
                    (c as int) <= 4,
                    0 <= rows as int,
                    (rows as int) <= 4,
            ;
        }
        out.push(m[c * rows + r]);
        r += 1;
    }
    proof {
        assert(out@ =~= spec_mat_col(m@, rows as int, c as int));
    }
    out
}

fn linmul_single(a: &ConstSVMVal<F32Bits>, b: &ConstSVMVal<F32Bits>) -> (r: Option<
    ConstSVMVal<F32Bits>,
>)
    requires
        a@.wf(),
        b@.wf(),
    ensures
        opt_view(r) == spec_linmul(a@, b@),
{
    proof {
        crate::shape::lemma_width_rows_cols(a.shape);
        crate::shape::lemma_width_rows_cols(b.shape);
    }
    if a.shape.is_matrix() && b.shape.is_vector() && b.shape.rows() == a.shape.cols() {
        let rows = a.shape.rows();
        let cols = a.shape.cols();
        let mut out: Vec<F32Bits> = Vec::new();
        let mut r: usize = 0;
        while r < rows
            invariant
                a@.wf(),
                b@.wf(),
                a@.shape.spec_is_matrix(),
                b@.shape.spec_is_vector(),
                rows == a@.shape.spec_rows(),
                cols == a@.shape.spec_cols(),
                b@.shape.spec_rows() == cols,
                rows >= 1,
                cols >= 1,
                rows <= 4,
                cols <= 4,
                a.elems@.len() == rows * cols,
                b.elems@.len() == cols,
                0 <= r <= rows,
                out@.len() == r as int,
                forall|j: int|
                    0 <= j < r as int ==> out@[j] == spec_dot(
                        spec_mat_row(a.elems@, rows as int, cols as int, j),
                        b.elems@,
                        cols as int,
                    ),
            decreases rows - r,
        {
            let row = gather_row_single(&a.elems, rows, cols, r);
            out.push(dot_single(&row, &b.elems, cols));
            r += 1;
        }
        let res = ConstSVMVal { shape: vec_shape_of(rows), elems: out };
        proof {
            assert(res@.elems =~= spec_linmul(a@, b@).unwrap().elems);
        }
        Some(res)
    } else if a.shape.is_vector() && b.shape.is_matrix() && a.shape.rows() == b.shape.rows() {
        let rows = b.shape.rows();
        let cols = b.shape.cols();
        let mut out: Vec<F32Bits> = Vec::new();
        let mut c: usize = 0;
        while c < cols
            invariant
                a@.wf(),
                b@.wf(),
                a@.shape.spec_is_vector(),
                b@.shape.spec_is_matrix(),
                rows == b@.shape.spec_rows(),
                cols == b@.shape.spec_cols(),
                a@.shape.spec_rows() == rows,
                rows >= 1,
                cols >= 1,
                rows <= 4,
                cols <= 4,
                b.elems@.len() == rows * cols,
                a.elems@.len() == rows,
                0 <= c <= cols,
                out@.len() == c as int,
                forall|j: int|
                    0 <= j < c as int ==> out@[j] == spec_dot(
                        a.elems@,
                        spec_mat_col(b.elems@, rows as int, j),
                        rows as int,
                    ),
            decreases cols - c,
        {
            let col = gather_col_single(&b.elems, rows, c, cols);
            out.push(dot_single(&a.elems, &col, rows));
            c += 1;
        }
        let res = ConstSVMVal { shape: vec_shape_of(cols), elems: out };
        proof {
            assert(res@.elems =~= spec_linmul(a@, b@).unwrap().elems);
        }
        Some(res)
    } else {
        None
    }
}

fn linmul_double(a: &ConstSVMVal<F64Bits>, b: &ConstSVMVal<F64Bits>) -> (r: Option<
    ConstSVMVal<F64Bits>,
>)
    requires
        a@.wf(),
        b@.wf(),
    ensures
        opt_view(r) == spec_linmul(a@, b@),
{
    proof {
        crate::shape::lemma_width_rows_cols(a.shape);
        crate::shape::lemma_width_rows_cols(b.shape);
    }
    if a.shape.is_matrix() && b.shape.is_vector() && b.shape.rows() == a.shape.cols() {
        let rows = a.shape.rows();
        let cols = a.shape.cols();
        let mut out: Vec<F64Bits> = Vec::new();
        let mut r: usize = 0;
        while r < rows
            invariant
                a@.wf(),
                b@.wf(),
                a@.shape.spec_is_matrix(),
                b@.shape.spec_is_vector(),
                rows == a@.shape.spec_rows(),
                cols == a@.shape.spec_cols(),
                b@.shape.spec_rows() == cols,
                rows >= 1,
                cols >= 1,
                rows <= 4,
                cols <= 4,
                a.elems@.len() == rows * cols,
                b.elems@.len() == cols,
                0 <= r <= rows,
                out@.len() == r as int,
                forall|j: int|
                    0 <= j < r as int ==> out@[j] == spec_dot(
                        spec_mat_row(a.elems@, rows as int, cols as int, j),
                        b.elems@,
                        cols as int,
                    ),
            decreases rows - r,
        {
            let row = gather_row_double(&a.elems, rows, cols, r);
            out.push(dot_double(&row, &b.elems, cols));
            r += 1;
        }
        let res = ConstSVMVal { shape: vec_shape_of(rows), elems: out };
        proof {
            assert(res@.elems =~= spec_linmul(a@, b@).unwrap().elems);
        }
        Some(res)
    } else if a.shape.is_vector() && b.shape.is_matrix() && a.shape.rows() == b.shape.rows() {
        let rows = b.shape.rows();
        let cols = b.shape.cols();
        let mut out: Vec<F64Bits> = Vec::new();
        let mut c: usize = 0;
        while c < cols
            invariant
                a@.wf(),
                b@.wf(),
                a@.shape.spec_is_vector(),
                b@.shape.spec_is_matrix(),
                rows == b@.shape.spec_rows(),
                cols == b@.shape.spec_cols(),
                a@.shape.spec_rows() == rows,
                rows >= 1,
                cols >= 1,
                rows <= 4,
                cols <= 4,
                b.elems@.len() == rows * cols,
                a.elems@.len() == rows,
                0 <= c <= cols,
                out@.len() == c as int,
                forall|j: int|
                    0 <= j < c as int ==> out@[j] == spec_dot(
                        a.elems@,
                        spec_mat_col(b.elems@, rows as int, j),
                        rows as int,
                    ),
            decreases cols - c,
        {
            let col = gather_col_double(&b.elems, rows, c, cols);
            out.push(dot_double(&a.elems, &col, rows));
            c += 1;
        }
        let res = ConstSVMVal { shape: vec_shape_of(cols), elems: out };
        proof {
            assert(res@.elems =~= spec_linmul(a@, b@).unwrap().elems);
        }
        Some(res)
    } else {
        None
    }
}

/// The vector shape with `n` rows, for `n` between 2 and 4.
fn vec_shape_of(n: usize) -> (s: BaseTypeShape)
    requires
        1 <= n <= 4,
    ensures
        s == BaseTypeShape::spec_vec_of(n as nat),
{
    if n == 2 {
        BaseTypeShape::Vec2
    } else if n == 3 {
        BaseTypeShape::Vec3
    } else {
        BaseTypeShape::Vec4
    }
}

pub fn apply_linmul(a: &ConstBaseVal, b: &ConstBaseVal) -> (r: Option<ConstBaseVal>)
    requires
        a@.wf(),
        b@.wf(),
    ensures
        opt_view(r) == spec_apply_linmul(a@, b@),
{
    match a {
        ConstBaseVal::Float(x) => match b {
            ConstBaseVal::Float(y) => match linmul_single(x, y) {
                Some(w) => Some(ConstBaseVal::Float(w)),
                None => None,
            },
            _ => None,
        },
        ConstBaseVal::Double(x) => match b {
            ConstBaseVal::Double(y) => match linmul_double(x, y) {
                Some(w) => Some(ConstBaseVal::Double(w)),
                None => None,
            },
            _ => None,
        },
        _ => None,
    }
}

// ---------------------------------------------------------------
// Implicit casts of whole values along the cast lattice
// ---------------------------------------------------------------

/// Converts a value to the given base type along the implicit cast
/// lattice, keeping its shape; absent where the lattice has no edge.
pub open spec fn spec_cast_val(v: BaseValView, to: ParameterBaseType) -> Option<BaseValView> {
    match v {
        BaseValView::Bool(s) => match to {
            ParameterBaseType::Bool => Some(v),
            _ => None,
        },
        BaseValView::Int(s) => match to {
            ParameterBaseType::Int => Some(v),
            ParameterBaseType::UInt => Some(
                BaseValView::UInt(SvmView { shape: s.shape, elems: spec_seq_int_to_uint(s.elems) }),
            ),
            ParameterBaseType::Float => Some(
                BaseValView::Float(
                    SvmView { shape: s.shape, elems: spec_seq_int_to_single(s.elems) },
                ),
            ),
            ParameterBaseType::Double => Some(
                BaseValView::Double(
                    SvmView { shape: s.shape, elems: spec_seq_int_to_double(s.elems) },
                ),
            ),
            _ => None,
        },
        BaseValView::UInt(s) => match to {
            ParameterBaseType::UInt => Some(v),
            ParameterBaseType::Float => Some(
                BaseValView::Float(
                    SvmView { shape: s.shape, elems: spec_seq_uint_to_single(s.elems) },
                ),
            ),
            ParameterBaseType::Double => Some(
                BaseValView::Double(
                    SvmView { shape: s.shape, elems: spec_seq_uint_to_double(s.elems) },
                ),
            ),
            _ => None,
        },
        BaseValView::Float(s) => match to {
            ParameterBaseType::Float => Some(v),
            ParameterBaseType::Double => Some(
                BaseValView::Double(
                    SvmView { shape: s.shape, elems: spec_seq_single_to_double(s.elems) },
                ),
            ),
            _ => None,
        },
        BaseValView::Double(s) => match to {
            ParameterBaseType::Double => Some(v),
            _ => None,
        },
    }
}

pub fn cast_val(v: &ConstBaseVal, to: ParameterBaseType) -> (r: Option<ConstBaseVal>)
    ensures
        opt_view(r) == spec_cast_val(v@, to),
{
    match v {
        ConstBaseVal::Bool(s) => match to {
            ParameterBaseType::Bool => Some(ConstBaseVal::Bool(copy_svm(s))),
            _ => None,
        },
        ConstBaseVal::Int(s) => match to {
            ParameterBaseType::Int => Some(ConstBaseVal::Int(copy_svm(s))),
            ParameterBaseType::UInt => Some(ConstBaseVal::UInt(conv_int_to_uint(s))),
            ParameterBaseType::Float => Some(ConstBaseVal::Float(conv_int_to_single(s))),
            ParameterBaseType::Double => Some(ConstBaseVal::Double(conv_int_to_double(s))),
            _ => None,
        },
        ConstBaseVal::UInt(s) => match to {
            ParameterBaseType::UInt => Some(ConstBaseVal::UInt(copy_svm(s))),
            ParameterBaseType::Float => Some(ConstBaseVal::Float(conv_uint_to_single(s))),
            ParameterBaseType::Double => Some(ConstBaseVal::Double(conv_uint_to_double(s))),
            _ => None,
        },
        ConstBaseVal::Float(s) => match to {
            ParameterBaseType::Float => Some(ConstBaseVal::Float(copy_svm(s))),
            ParameterBaseType::Double => Some(ConstBaseVal::Double(conv_single_to_double(s))),
            _ => None,
        },
        ConstBaseVal::Double(s) => match to {
            ParameterBaseType::Double => Some(ConstBaseVal::Double(copy_svm(s))),
            _ => None,
        },
    }
}

/// A fresh shaped value with the same view.
pub fn copy_svm<T: Copy>(v: &ConstSVMVal<T>) -> (r: ConstSVMVal<T>)
    ensures
        r@ == v@,
{
    let mut out: Vec<T> = Vec::new();
    let mut i: usize = 0;
    while i < v.elems.len()
        invariant
            0 <= i <= v.elems@.len(),
            out@.len() == i as int,
            forall|j: int| 0 <= j < i as int ==> out@[j] == v.elems@[j],
        decreases v.elems@.len() - i,
    {
        out.push(v.elems[i]);
        i += 1;
    }
    proof {
        assert(out@ =~= v.elems@);
    }
    ConstSVMVal { shape: v.shape, elems: out }
}

/// A fresh basic value with the same view.
pub fn copy_base_val(v: &ConstBaseVal) -> (r: ConstBaseVal)
    ensures
        r@ == v@,
{
    match v {
        ConstBaseVal::Bool(s) => ConstBaseVal::Bool(copy_svm(s)),
        ConstBaseVal::Int(s) => ConstBaseVal::Int(copy_svm(s)),
        ConstBaseVal::UInt(s) => ConstBaseVal::UInt(copy_svm(s)),
        ConstBaseVal::Float(s) => ConstBaseVal::Float(copy_svm(s)),
        ConstBaseVal::Double(s) => ConstBaseVal::Double(copy_svm(s)),
    }
}

/// Casting keeps the shape and well-formedness of a value.
pub proof fn lemma_cast_val_wf(v: BaseValView, to: ParameterBaseType)
    requires
        v.wf(),
    ensures
        match spec_cast_val(v, to) {
            Some(w) => w.wf() && w.spec_shape() == v.spec_shape()
                && crate::param::ParameterBaseType::spec_from_const_val(w) == to,
            None => true,
        },
{
}

/// Whole-value equality is symmetric in its operands: the element
/// equalities are plain equality on the booleans and integers and
/// the IEEE comparison on the floating point types, each symmetric.
pub proof fn lemma_apply_equal_symmetric(a: BaseValView, b: BaseValView)
    requires
        a.wf(),
        b.wf(),
    ensures
        spec_apply_equal(a, b) == spec_apply_equal(b, a),
{
    match (a, b) {
        (BaseValView::Bool(x), BaseValView::Bool(y)) => {
            if x.shape == y.shape {
                assert(spec_eq_fold(x, y).unwrap() == spec_eq_fold(y, x).unwrap()) by {
                    assert forall|i: int|
                        0 <= i < x.elems.len() implies #[trigger] bool::eq_spec(
                        x.elems[i],
                        y.elems[i],
                    ) == bool::eq_spec(y.elems[i], x.elems[i]) by {}
                }
            }
        },
        (BaseValView::Int(x), BaseValView::Int(y)) => {
            if x.shape == y.shape {
                assert(spec_eq_fold(x, y).unwrap() == spec_eq_fold(y, x).unwrap()) by {
                    assert forall|i: int|
                        0 <= i < x.elems.len() implies #[trigger] i32::eq_spec(
                        x.elems[i],
                        y.elems[i],
                    ) == i32::eq_spec(y.elems[i], x.elems[i]) by {}
                }
            }
        },
        (BaseValView::UInt(x), BaseValView::UInt(y)) => {
            if x.shape == y.shape {
                assert(spec_eq_fold(x, y).unwrap() == spec_eq_fold(y, x).unwrap()) by {
                    assert forall|i: int|
                        0 <= i < x.elems.len() implies #[trigger] u32::eq_spec(
                        x.elems[i],
                        y.elems[i],
                    ) == u32::eq_spec(y.elems[i], x.elems[i]) by {}
                }
            }
        },
        (BaseValView::Float(x), BaseValView::Float(y)) => {
            if x.shape == y.shape {
                assert(spec_eq_fold(x, y).unwrap() == spec_eq_fold(y, x).unwrap()) by {
                    assert forall|i: int|
                        0 <= i < x.elems.len() implies #[trigger] F32Bits::eq_spec(
                        x.elems[i],
                        y.elems[i],
                    ) == F32Bits::eq_spec(y.elems[i], x.elems[i]) by {
                        crate::scalar::lemma_elem_eq_symmetric_single(x.elems[i], y.elems[i]);
                    }
                }
            }
        },
        (BaseValView::Double(x), BaseValView::Double(y)) => {
            if x.shape == y.shape {
                assert(spec_eq_fold(x, y).unwrap() == spec_eq_fold(y, x).unwrap()) by {
                    assert forall|i: int|
                        0 <= i < x.elems.len() implies #[trigger] F64Bits::eq_spec(
                        x.elems[i],
                        y.elems[i],
                    ) == F64Bits::eq_spec(y.elems[i], x.elems[i]) by {
                        crate::scalar::lemma_elem_eq_symmetric_double(x.elems[i], y.elems[i]);
                    }
                }
            }
        },
        _ => {},
    }
}

} // verus!
