use vstd::prelude::*;
use crate::shape::BaseTypeShape;
use crate::scalar::{ScalarElem, UnaryElemOp, BinElemOp, F32Bits, F64Bits};
use crate::scalar::{single_from_i32, single_from_u32, double_from_i32, double_from_u32,
    double_from_single};
use crate::scalar::{single_of_i32, single_of_u32, double_of_i32, double_of_u32,
    spec_double_of_single};

verus! {

/// The mathematical content of a shaped value: its shape tag and its
/// elements in column-major order.
#[verifier::ext_equal]
pub ghost struct SvmView<T> {
    pub shape: BaseTypeShape,
    pub elems: Seq<T>,
}

impl<T> SvmView<T> {
    /// A shaped value stores exactly as many elements as its shape
    /// demands.
    pub open spec fn wf(self) -> bool {
        self.elems.len() == self.shape.spec_width()
    }

    /// Scalars and vectors only; the integer and boolean families
    /// never hold a matrix.
    pub open spec fn is_sv(self) -> bool {
        !self.shape.spec_is_matrix()
    }
}

/// A constant value of a single base type: a scalar, vector or matrix
/// over the element type `T`, stored dense in column-major order.
#[derive(Clone, Debug)]
pub struct ConstSVMVal<T> {
    pub shape: BaseTypeShape,
    pub elems: Vec<T>,
}

impl<T> View for ConstSVMVal<T> {
    type V = SvmView<T>;

    open spec fn view(&self) -> SvmView<T> {
        SvmView { shape: self.shape, elems: self.elems@ }
    }
}

pub open spec fn opt_view<X: View>(o: Option<X>) -> Option<X::V> {
    match o {
        Some(x) => Some(x@),
        None => None,
    }
}

impl<T: Copy> ConstSVMVal<T> {
    pub fn new_scalar(x: T) -> (r: Self)
        ensures
            r@ == (SvmView { shape: BaseTypeShape::Scalar, elems: seq![x] }),
            r@.wf(),
    {
        let mut elems: Vec<T> = Vec::new();
        elems.push(x);
        proof {
            assert(elems@ =~= seq![x]);
        }
        ConstSVMVal { shape: BaseTypeShape::Scalar, elems }
    }

    pub fn new_vec2(x: T, y: T) -> (r: Self)
        ensures
            r@ == (SvmView { shape: BaseTypeShape::Vec2, elems: seq![x, y] }),
            r@.wf(),
    {
        let mut elems: Vec<T> = Vec::new();
        elems.push(x);
        elems.push(y);
        proof {
            assert(elems@ =~= seq![x, y]);
        }
        ConstSVMVal { shape: BaseTypeShape::Vec2, elems }
    }

    pub fn new_vec3(x: T, y: T, z: T) -> (r: Self)
        ensures
            r@ == (SvmView { shape: BaseTypeShape::Vec3, elems: seq![x, y, z] }),
            r@.wf(),
    {
        let mut elems: Vec<T> = Vec::new();
        elems.push(x);
        elems.push(y);
        elems.push(z);
        proof {
            assert(elems@ =~= seq![x, y, z]);
        }
        ConstSVMVal { shape: BaseTypeShape::Vec3, elems }
    }

    pub fn new_vec4(x: T, y: T, z: T, w: T) -> (r: Self)
        ensures
            r@ == (SvmView { shape: BaseTypeShape::Vec4, elems: seq![x, y, z, w] }),
            r@.wf(),
    {
        let mut elems: Vec<T> = Vec::new();
        elems.push(x);
        elems.push(y);
        elems.push(z);
        elems.push(w);
        proof {
            assert(elems@ =~= seq![x, y, z, w]);
        }
        ConstSVMVal { shape: BaseTypeShape::Vec4, elems }
    }

    /// Builds a value of the given shape from its column-major
    /// elements.
    pub fn from_parts(shape: BaseTypeShape, elems: Vec<T>) -> (r: Self)
        requires
            elems@.len() == shape.spec_width(),
        ensures
            r@ == (SvmView { shape, elems: elems@ }),
            r@.wf(),
    {
        ConstSVMVal { shape, elems }
    }

    pub fn get_shape(&self) -> (s: BaseTypeShape)
        ensures
            s == self@.shape,
    {
        self.shape
    }
}

/// A vector holding `n` copies of `x`.
pub(crate) fn repeat_elem<T: Copy>(x: T, n: usize) -> (r: Vec<T>)
    ensures
        r@ == Seq::new(n as nat, |i: int| x),
{
    let mut out: Vec<T> = Vec::new();
    let mut i: usize = 0;
    while i < n
        invariant
            0 <= i <= n,
            out@.len() == i as int,
            forall|j: int| 0 <= j < i as int ==> out@[j] == x,
        decreases n - i,
    {
        out.push(x);
        i += 1;
    }
    proof {
        assert(out@ =~= Seq::new(n as nat, |i: int| x));
    }
    out
}

/// Component-wise unary application over an element sequence; absent
/// as soon as the operation is absent on one element.
pub open spec fn spec_un_seq<T: ScalarElem>(op: UnaryElemOp, a: Seq<T>) -> Option<Seq<T>> {
    if forall|i: int| 0 <= i < a.len() ==> T::un_spec(op, a[i]) is Some {
        Some(Seq::new(a.len(), |i: int| T::un_spec(op, a[i]).unwrap()))
    } else {
        None
    }
}

/// Component-wise binary application over two element sequences of
/// equal length.
pub open spec fn spec_bin_seq<T: ScalarElem>(op: BinElemOp, a: Seq<T>, b: Seq<T>) -> Option<
    Seq<T>,
>
    recommends
        a.len() == b.len(),
{
    if forall|i: int| 0 <= i < a.len() ==> T::bin_spec(op, a[i], b[i]) is Some {
        Some(Seq::new(a.len(), |i: int| T::bin_spec(op, a[i], b[i]).unwrap()))
    } else {
        None
    }
}

/// `map` of the shaped algebra: the result keeps the shape, and the
/// whole application is absent where the element operation is absent
/// anywhere.
pub open spec fn spec_map_un<T: ScalarElem>(op: UnaryElemOp, v: SvmView<T>) -> Option<
    SvmView<T>,
> {
    match spec_un_seq(op, v.elems) {
        Some(es) => Some(SvmView { shape: v.shape, elems: es }),
        None => None,
    }
}

/// `zip_map` of the shaped algebra with scalar broadcast: operands of
/// one shape combine component-wise, a scalar operand combines with
/// every component of the other side, and any other pairing is
/// absent. There is no implicit broadcast between two non-scalar
/// shapes.
pub open spec fn spec_zip_bin<T: ScalarElem>(op: BinElemOp, a: SvmView<T>, b: SvmView<T>) -> Option<
    SvmView<T>,
> {
    if a.shape == b.shape {
        match spec_bin_seq(op, a.elems, b.elems) {
            Some(es) => Some(SvmView { shape: a.shape, elems: es }),
            None => None,
        }
    } else if a.shape.spec_is_scalar() {
        match spec_bin_seq(op, Seq::new(b.elems.len(), |i: int| a.elems[0]), b.elems) {
            Some(es) => Some(SvmView { shape: b.shape, elems: es }),
            None => None,
        }
    } else if b.shape.spec_is_scalar() {
        match spec_bin_seq(op, a.elems, Seq::new(a.elems.len(), |i: int| b.elems[0])) {
            Some(es) => Some(SvmView { shape: a.shape, elems: es }),
            None => None,
        }
    } else {
        None
    }
}

/// Equality of two shaped values of one shape: the conjunction of the
/// element equalities; absent on a shape mismatch.
pub open spec fn spec_eq_fold<T: ScalarElem>(a: SvmView<T>, b: SvmView<T>) -> Option<bool> {
    if a.shape == b.shape {
        Some(forall|i: int| 0 <= i < a.elems.len() ==> T::eq_spec(a.elems[i], b.elems[i]))
    } else {
        None
    }
}

/// Applies a unary element operation to every element of a vector.
pub(crate) fn un_seq<T: ScalarElem>(op: UnaryElemOp, a: &Vec<T>) -> (r: Option<Vec<T>>)
    ensures
        opt_view(r) == spec_un_seq(op, a@),
{
    let mut out: Vec<T> = Vec::new();
    let mut i: usize = 0;
    while i < a.len()
        invariant
            0 <= i <= a@.len(),
            out@.len() == i as int,
            forall|j: int| 0 <= j < i as int ==> T::un_spec(op, a@[j]) is Some,
            forall|j: int| 0 <= j < i as int ==> out@[j] == T::un_spec(op, a@[j]).unwrap(),
        decreases a@.len() - i,
    {
        match T::un_op(op, a[i]) {
            Some(x) => {
                out.push(x);
            },
            None => {
                return None;
            },
        }
        i += 1;
    }
    proof {
        assert(out@ =~= Seq::new(a@.len(), |i: int| T::un_spec(op, a@[i]).unwrap()));
    }
    Some(out)
}

/// Applies a binary element operation pointwise to two vectors of one
/// length.
pub(crate) fn bin_seq<T: ScalarElem>(op: BinElemOp, a: &Vec<T>, b: &Vec<T>) -> (r: Option<Vec<T>>)
    requires
        a@.len() == b@.len(),
    ensures
        opt_view(r) == spec_bin_seq(op, a@, b@),
{
    let mut out: Vec<T> = Vec::new();
    let mut i: usize = 0;
    while i < a.len()
        invariant
            a@.len() == b@.len(),
            0 <= i <= a@.len(),
            out@.len() == i as int,
            forall|j: int| 0 <= j < i as int ==> T::bin_spec(op, a@[j], b@[j]) is Some,
            forall|j: int| 0 <= j < i as int ==> out@[j] == T::bin_spec(op, a@[j], b@[j]).unwrap(),
        decreases a@.len() - i,
    {
        match T::bin_op(op, a[i], b[i]) {
            Some(x) => {
                out.push(x);
            },
            None => {
                return None;
            },
        }
        i += 1;
    }
    proof {
        assert(out@ =~= Seq::new(a@.len(), |i: int| T::bin_spec(op, a@[i], b@[i]).unwrap()));
    }
    Some(out)
}

/// `map` over a whole shaped value.
pub fn map_un<T: ScalarElem>(op: UnaryElemOp, v: &ConstSVMVal<T>) -> (r: Option<ConstSVMVal<T>>)
    ensures
        opt_view(r) == spec_map_un(op, v@),
{
    match un_seq(op, &v.elems) {
        Some(es) => Some(ConstSVMVal { shape: v.shape, elems: es }),
        None => None,
    }
}

/// `zip_map` with scalar broadcast over two shaped values.
pub fn zip_bin<T: ScalarElem>(op: BinElemOp, a: &ConstSVMVal<T>, b: &ConstSVMVal<T>) -> (r: Option<
    ConstSVMVal<T>,
>)
    requires
        a@.wf(),
        b@.wf(),
    ensures
        opt_view(r) == spec_zip_bin(op, a@, b@),
{
    if a.shape == b.shape {
        match bin_seq(op, &a.elems, &b.elems) {
            Some(es) => Some(ConstSVMVal { shape: a.shape, elems: es }),
            None => None,
        }
    } else if a.shape.is_scalar() {
        let av = repeat_elem(a.elems[0], b.elems.len());
        match bin_seq(op, &av, &b.elems) {
            Some(es) => Some(ConstSVMVal { shape: b.shape, elems: es }),
            None => None,
        }
    } else if b.shape.is_scalar() {
        let bv = repeat_elem(b.elems[0], a.elems.len());
        match bin_seq(op, &a.elems, &bv) {
            Some(es) => Some(ConstSVMVal { shape: a.shape, elems: es }),
            None => None,
        }
    } else {
        None
    }
}

/// Element-wise equality folded with conjunction; absent on a shape
/// mismatch.
pub fn eq_fold<T: ScalarElem>(a: &ConstSVMVal<T>, b: &ConstSVMVal<T>) -> (r: Option<bool>)
    requires
        a@.wf(),
        b@.wf(),
    ensures
        r == spec_eq_fold(a@, b@),
{
    if a.shape == b.shape {
        let mut i: usize = 0;
        while i < a.elems.len()
            invariant
                a@.wf(),
                b@.wf(),
                a@.shape == b@.shape,
                0 <= i <= a@.elems.len(),
                forall|j: int| 0 <= j < i as int ==> T::eq_spec(a@.elems[j], b@.elems[j]),
            decreases a@.elems.len() - i,
        {
            if !T::eq_op(a.elems[i], b.elems[i]) {
                return Some(false);
            }
            i += 1;
        }
        Some(true)
    } else {
        None
    }
}


/// Strict `zip_map` of the shaped algebra: present exactly on two
/// operands of one shape, never broadcasting; the operator overloads
/// add scalar broadcast on top of this through `spec_zip_bin`.
pub open spec fn spec_zip_map_strict<T: ScalarElem>(
    op: BinElemOp,
    a: SvmView<T>,
    b: SvmView<T>,
) -> Option<SvmView<T>> {
    if a.shape == b.shape {
        match spec_bin_seq(op, a.elems, b.elems) {
            Some(es) => Some(SvmView { shape: a.shape, elems: es }),
            None => None,
        }
    } else {
        None
    }
}

impl<T: ScalarElem> ConstSVMVal<T> {
    /// Component-wise application of a unary element operation; the
    /// result keeps the shape. Absent where the operation is not
    /// defined on the element type.
    pub fn map(&self, op: UnaryElemOp) -> (r: Option<ConstSVMVal<T>>)
        ensures
            opt_view(r) == spec_map_un(op, self@),
    {
        map_un(op, self)
    }

    /// Strict component-wise combination of two shaped values: a
    /// shape mismatch makes the result absent, and nothing is
    /// broadcast.
    pub fn zip_map(&self, op: BinElemOp, other: &ConstSVMVal<T>) -> (r: Option<ConstSVMVal<T>>)
        requires
            self@.wf(),
            other@.wf(),
        ensures
            opt_view(r) == spec_zip_map_strict(op, self@, other@),
    {
        if self.shape == other.shape {
            match bin_seq(op, &self.elems, &other.elems) {
                Some(es) => Some(ConstSVMVal { shape: self.shape, elems: es }),
                None => None,
            }
        } else {
            None
        }
    }
}

/// `map` keeps the shape and element count, and maps the elements
/// pointwise.
pub proof fn lemma_map_keeps_shape<T: ScalarElem>(op: UnaryElemOp, v: SvmView<T>)
    ensures
        match spec_map_un(op, v) {
            Some(w) => w.shape == v.shape && w.elems.len() == v.elems.len() && forall|i: int|
                0 <= i < v.elems.len() ==> T::un_spec(op, v.elems[i]) == Some(#[trigger] w.elems[i]),
            None => true,
        },
{
}

/// The strict `zip_map` is present exactly on operands of one shape
/// whose element combination is everywhere defined, keeps that
/// shape, and combines the elements pointwise; it never broadcasts.
pub proof fn lemma_zip_map_no_broadcast<T: ScalarElem>(op: BinElemOp, a: SvmView<T>, b: SvmView<T>)
    ensures
        a.shape != b.shape ==> spec_zip_map_strict(op, a, b) is None,
        match spec_zip_map_strict(op, a, b) {
            Some(w) => a.shape == b.shape && w.shape == a.shape && w.elems.len() == a.elems.len()
                && forall|i: int|
                0 <= i < a.elems.len() ==> T::bin_spec(op, a.elems[i], b.elems[i]) == Some(
                    #[trigger] w.elems[i],
                ),
            None => true,
        },
{
}

/// Unary minus is an involution on the elements: wrapping negation
/// twice is the identity on the integers, and the sign-bit flip
/// twice is the identity on the floating point patterns.
pub proof fn lemma_negate_involution_i32(a: i32)
    ensures
        i32::un_spec(UnaryElemOp::Negate, i32::un_spec(UnaryElemOp::Negate, a).unwrap()).unwrap()
            == a,
{
}

pub proof fn lemma_negate_involution_u32(a: u32)
    ensures
        u32::un_spec(UnaryElemOp::Negate, u32::un_spec(UnaryElemOp::Negate, a).unwrap()).unwrap()
            == a,
{
}

pub proof fn lemma_negate_involution_single(a: F32Bits)
    ensures
        F32Bits::un_spec(
            UnaryElemOp::Negate,
            F32Bits::un_spec(UnaryElemOp::Negate, a).unwrap(),
        ).unwrap() == a,
{
    let bits = a.bits;
    assert(bits ^ 0x80000000u32 ^ 0x80000000u32 == bits) by (bit_vector);
}

pub proof fn lemma_negate_involution_double(a: F64Bits)
    ensures
        F64Bits::un_spec(
            UnaryElemOp::Negate,
            F64Bits::un_spec(UnaryElemOp::Negate, a).unwrap(),
        ).unwrap() == a,
{
    let bits = a.bits;
    assert(bits ^ 0x8000000000000000u64 ^ 0x8000000000000000u64 == bits) by (bit_vector);
}

/// Unary minus is an involution on whole shaped values of any
/// element type whose negation is a defined involution.
pub proof fn lemma_map_negate_involution<T: ScalarElem>(v: SvmView<T>)
    requires
        forall|a: T| (#[trigger] T::un_spec(UnaryElemOp::Negate, a)) is Some,
        forall|a: T|
            T::un_spec(
                UnaryElemOp::Negate,
                (#[trigger] T::un_spec(UnaryElemOp::Negate, a)).unwrap(),
            ).unwrap() == a,
    ensures
        spec_map_un(UnaryElemOp::Negate, spec_map_un(UnaryElemOp::Negate, v).unwrap()) == Some(v),
{
    let w = spec_map_un(UnaryElemOp::Negate, v).unwrap();
    let u = spec_map_un(UnaryElemOp::Negate, w).unwrap();
    assert(u.elems =~= v.elems);
    assert(u =~= v);
}

/// A generic constant basic value: one of the five base-type families,
/// each holding a shaped value over its own element representation.
/// The boolean and integer families never hold a matrix.
#[derive(Clone, Debug)]
pub enum ConstBaseVal {
    Bool(ConstSVMVal<bool>),
    Int(ConstSVMVal<i32>),
    UInt(ConstSVMVal<u32>),
    Float(ConstSVMVal<F32Bits>),
    Double(ConstSVMVal<F64Bits>),
}

#[verifier::ext_equal]
pub ghost enum BaseValView {
    Bool(SvmView<bool>),
    Int(SvmView<i32>),
    UInt(SvmView<u32>),
    Float(SvmView<F32Bits>),
    Double(SvmView<F64Bits>),
}

impl View for ConstBaseVal {
    type V = BaseValView;

    open spec fn view(&self) -> BaseValView {
        match self {
            ConstBaseVal::Bool(v) => BaseValView::Bool(v@),
            ConstBaseVal::Int(v) => BaseValView::Int(v@),
            ConstBaseVal::UInt(v) => BaseValView::UInt(v@),
            ConstBaseVal::Float(v) => BaseValView::Float(v@),
            ConstBaseVal::Double(v) => BaseValView::Double(v@),
        }
    }
}

impl BaseValView {
    /// The tag agrees with the stored elements by construction; what
    /// remains is the shape invariant: the element count matches the
    /// shape, and the boolean and integer families hold no matrix.
    pub open spec fn wf(self) -> bool {
        match self {
            BaseValView::Bool(v) => v.wf() && v.is_sv(),
            BaseValView::Int(v) => v.wf() && v.is_sv(),
            BaseValView::UInt(v) => v.wf() && v.is_sv(),
            BaseValView::Float(v) => v.wf(),
            BaseValView::Double(v) => v.wf(),
        }
    }

    pub open spec fn spec_shape(self) -> BaseTypeShape {
        match self {
            BaseValView::Bool(v) => v.shape,
            BaseValView::Int(v) => v.shape,
            BaseValView::UInt(v) => v.shape,
            BaseValView::Float(v) => v.shape,
            BaseValView::Double(v) => v.shape,
        }
    }

    /// A constant scalar boolean, the shape the ternary operator
    /// selects on.
    pub open spec fn spec_as_scalar_bool(self) -> Option<bool> {
        match self {
            BaseValView::Bool(v) => if v.shape.spec_is_scalar() {
                Some(v.elems[0])
            } else {
                None
            },
            _ => None,
        }
    }
}

impl ConstBaseVal {
    pub open spec fn spec_wf(&self) -> bool {
        self@.wf()
    }

    pub fn new_bool(b: bool) -> (r: Self)
        ensures
            r@ == BaseValView::Bool(SvmView { shape: BaseTypeShape::Scalar, elems: seq![b] }),
            r@.wf(),
    {
        ConstBaseVal::Bool(ConstSVMVal::new_scalar(b))
    }

    pub fn new_int(v: i32) -> (r: Self)
        ensures
            r@ == BaseValView::Int(SvmView { shape: BaseTypeShape::Scalar, elems: seq![v] }),
            r@.wf(),
    {
        ConstBaseVal::Int(ConstSVMVal::new_scalar(v))
    }

    pub fn new_uint(v: u32) -> (r: Self)
        ensures
            r@ == BaseValView::UInt(SvmView { shape: BaseTypeShape::Scalar, elems: seq![v] }),
            r@.wf(),
    {
        ConstBaseVal::UInt(ConstSVMVal::new_scalar(v))
    }

    pub fn new_float(v: F32Bits) -> (r: Self)
        ensures
            r@ == BaseValView::Float(SvmView { shape: BaseTypeShape::Scalar, elems: seq![v] }),
            r@.wf(),
    {
        ConstBaseVal::Float(ConstSVMVal::new_scalar(v))
    }

    pub fn new_double(v: F64Bits) -> (r: Self)
        ensures
            r@ == BaseValView::Double(SvmView { shape: BaseTypeShape::Scalar, elems: seq![v] }),
            r@.wf(),
    {
        ConstBaseVal::Double(ConstSVMVal::new_scalar(v))
    }

    pub fn get_shape(&self) -> (s: BaseTypeShape)
        ensures
            s == self@.spec_shape(),
    {
        match self {
            ConstBaseVal::Bool(v) => v.get_shape(),
            ConstBaseVal::Int(v) => v.get_shape(),
            ConstBaseVal::UInt(v) => v.get_shape(),
            ConstBaseVal::Float(v) => v.get_shape(),
            ConstBaseVal::Double(v) => v.get_shape(),
        }
    }

    /// The boolean a constant scalar boolean holds.
    pub fn as_scalar_bool(&self) -> (r: Option<bool>)
        requires
            self@.wf(),
        ensures
            r == self@.spec_as_scalar_bool(),
    {
        match self {
            ConstBaseVal::Bool(v) => {
                if v.shape.is_scalar() {
                    Some(v.elems[0])
                } else {
                    None
                }
            },
            _ => None,
        }
    }
}

// Implicit conversions of whole shaped values along the cast lattice.
// Each keeps the shape and converts the elements one for one.

pub open spec fn spec_i32_to_u32(x: i32) -> u32 {
    u32::wrapping_add_signed(0u32, x)
}

pub open spec fn spec_seq_int_to_uint(s: Seq<i32>) -> Seq<u32> {
    s.map_values(|x: i32| spec_i32_to_u32(x))
}

pub open spec fn spec_seq_int_to_single(s: Seq<i32>) -> Seq<F32Bits> {
    s.map_values(|x: i32| F32Bits { bits: single_of_i32(x) })
}

pub open spec fn spec_seq_uint_to_single(s: Seq<u32>) -> Seq<F32Bits> {
    s.map_values(|x: u32| F32Bits { bits: single_of_u32(x) })
}

pub open spec fn spec_seq_int_to_double(s: Seq<i32>) -> Seq<F64Bits> {
    s.map_values(|x: i32| F64Bits { bits: double_of_i32(x) })
}

pub open spec fn spec_seq_uint_to_double(s: Seq<u32>) -> Seq<F64Bits> {
    s.map_values(|x: u32| F64Bits { bits: double_of_u32(x) })
}

pub open spec fn spec_seq_single_to_double(s: Seq<F32Bits>) -> Seq<F64Bits> {
    s.map_values(|x: F32Bits| F64Bits { bits: spec_double_of_single(x.bits) })
}

pub(crate) fn conv_int_to_uint(v: &ConstSVMVal<i32>) -> (r: ConstSVMVal<u32>)
    ensures
        r@ == (SvmView { shape: v@.shape, elems: spec_seq_int_to_uint(v@.elems) }),
{
    let mut out: Vec<u32> = Vec::new();
    let mut i: usize = 0;
    while i < v.elems.len()
        invariant
            0 <= i <= v.elems@.len(),
            out@.len() == i as int,
            forall|j: int| 0 <= j < i as int ==> out@[j] == spec_i32_to_u32(v.elems@[j]),
        decreases v.elems@.len() - i,
    {
        out.push(0u32.wrapping_add_signed(v.elems[i]));
        i += 1;
    }
    proof {
        assert(out@ =~= spec_seq_int_to_uint(v@.elems));
    }
    ConstSVMVal { shape: v.shape, elems: out }
}

pub(crate) fn conv_int_to_single(v: &ConstSVMVal<i32>) -> (r: ConstSVMVal<F32Bits>)
    ensures
        r@ == (SvmView { shape: v@.shape, elems: spec_seq_int_to_single(v@.elems) }),
{
    let mut out: Vec<F32Bits> = Vec::new();
    let mut i: usize = 0;
    while i < v.elems.len()
        invariant
            0 <= i <= v.elems@.len(),
            out@.len() == i as int,
            forall|j: int|
                0 <= j < i as int ==> out@[j] == (F32Bits { bits: single_of_i32(v.elems@[j]) }),
        decreases v.elems@.len() - i,
    {
        out.push(single_from_i32(v.elems[i]));
        i += 1;
    }
    proof {
        assert(out@ =~= spec_seq_int_to_single(v@.elems));
    }
    ConstSVMVal { shape: v.shape, elems: out }
}

pub(crate) fn conv_uint_to_single(v: &ConstSVMVal<u32>) -> (r: ConstSVMVal<F32Bits>)
    ensures
        r@ == (SvmView { shape: v@.shape, elems: spec_seq_uint_to_single(v@.elems) }),
{
    let mut out: Vec<F32Bits> = Vec::new();
    let mut i: usize = 0;
    while i < v.elems.len()
        invariant
            0 <= i <= v.elems@.len(),
            out@.len() == i as int,
            forall|j: int|
                0 <= j < i as int ==> out@[j] == (F32Bits { bits: single_of_u32(v.elems@[j]) }),
        decreases v.elems@.len() - i,
    {
        out.push(single_from_u32(v.elems[i]));
        i += 1;
    }
    proof {
        assert(out@ =~= spec_seq_uint_to_single(v@.elems));
    }
    ConstSVMVal { shape: v.shape, elems: out }
}

pub(crate) fn conv_int_to_double(v: &ConstSVMVal<i32>) -> (r: ConstSVMVal<F64Bits>)
    ensures
        r@ == (SvmView { shape: v@.shape, elems: spec_seq_int_to_double(v@.elems) }),
{
    let mut out: Vec<F64Bits> = Vec::new();
    let mut i: usize = 0;
    while i < v.elems.len()
        invariant
            0 <= i <= v.elems@.len(),
            out@.len() == i as int,
            forall|j: int|
                0 <= j < i as int ==> out@[j] == (F64Bits { bits: double_of_i32(v.elems@[j]) }),
        decreases v.elems@.len() - i,
    {
        out.push(double_from_i32(v.elems[i]));
        i += 1;
    }
    proof {
        assert(out@ =~= spec_seq_int_to_double(v@.elems));
    }
    ConstSVMVal { shape: v.shape, elems: out }
}

pub(crate) fn conv_uint_to_double(v: &ConstSVMVal<u32>) -> (r: ConstSVMVal<F64Bits>)
    ensures
        r@ == (SvmView { shape: v@.shape, elems: spec_seq_uint_to_double(v@.elems) }),
{
    let mut out: Vec<F64Bits> = Vec::new();
    let mut i: usize = 0;
    while i < v.elems.len()
        invariant
            0 <= i <= v.elems@.len(),
            out@.len() == i as int,
            forall|j: int|
                0 <= j < i as int ==> out@[j] == (F64Bits { bits: double_of_u32(v.elems@[j]) }),
        decreases v.elems@.len() - i,
    {
        out.push(double_from_u32(v.elems[i]));
        i += 1;
    }
    proof {
        assert(out@ =~= spec_seq_uint_to_double(v@.elems));
    }
    ConstSVMVal { shape: v.shape, elems: out }
}

pub(crate) fn conv_single_to_double(v: &ConstSVMVal<F32Bits>) -> (r: ConstSVMVal<F64Bits>)
    ensures
        r@ == (SvmView { shape: v@.shape, elems: spec_seq_single_to_double(v@.elems) }),
{
    let mut out: Vec<F64Bits> = Vec::new();
    let mut i: usize = 0;
    while i < v.elems.len()
        invariant
            0 <= i <= v.elems@.len(),
            out@.len() == i as int,
            forall|j: int|
                0 <= j < i as int ==> out@[j] == (F64Bits {
                    bits: spec_double_of_single(v.elems@[j].bits),
                }),
        decreases v.elems@.len() - i,
    {
        out.push(double_from_single(v.elems[i]));
        i += 1;
    }
    proof {
        assert(out@ =~= spec_seq_single_to_double(v@.elems));
    }
    ConstSVMVal { shape: v.shape, elems: out }
}

} // verus!
