use vstd::prelude::*;
use core::cmp::Ordering;
use crate::shape::BaseTypeShape;
use crate::value::{ConstBaseVal, BaseValView};

verus! {

/// The base type of a parameter in an overload prototype.
#[derive(Copy, Clone, PartialEq, Eq, Structural, Debug)]
pub enum ParameterBaseType {
    Bool,
    Int,
    UInt,
    Float,
    Double,
}

/// The position of a base type in the declaration order; the implicit
/// cast lattice is compatible with this order, and incomparable pairs
/// fall back to it.
pub open spec fn spec_base_rank(b: ParameterBaseType) -> int {
    match b {
        ParameterBaseType::Bool => 0,
        ParameterBaseType::Int => 1,
        ParameterBaseType::UInt => 2,
        ParameterBaseType::Float => 3,
        ParameterBaseType::Double => 4,
    }
}

pub open spec fn spec_reverse(o: Ordering) -> Ordering {
    match o {
        Ordering::Less => Ordering::Greater,
        Ordering::Equal => Ordering::Equal,
        Ordering::Greater => Ordering::Less,
    }
}

pub open spec fn spec_ord_of_ranks(a: int, b: int) -> Ordering {
    if a < b {
        Ordering::Less
    } else if a == b {
        Ordering::Equal
    } else {
        Ordering::Greater
    }
}

impl ParameterBaseType {
    /// The base type a constant value carries.
    pub open spec fn spec_from_const_val(val: BaseValView) -> ParameterBaseType {
        match val {
            BaseValView::Bool(_) => ParameterBaseType::Bool,
            BaseValView::Int(_) => ParameterBaseType::Int,
            BaseValView::UInt(_) => ParameterBaseType::UInt,
            BaseValView::Float(_) => ParameterBaseType::Float,
            BaseValView::Double(_) => ParameterBaseType::Double,
        }
    }

    /// The partial order of the implicit cast lattice. `Less` means
    /// that `self` converts implicitly into `other`; the only
    /// conversions are int to uint, int and uint to the two floating
    /// point types, and single to double precision. `bool` converts
    /// to itself alone, so it is comparable with nothing else.
    pub open spec fn spec_cast_cmp(self, other: ParameterBaseType) -> Option<Ordering> {
        if self == other {
            Some(Ordering::Equal)
        } else if self == ParameterBaseType::Bool || other == ParameterBaseType::Bool {
            None
        } else if spec_base_rank(self) < spec_base_rank(other) {
            Some(Ordering::Less)
        } else {
            Some(Ordering::Greater)
        }
    }

    pub open spec fn spec_can_cast_into(self, other: ParameterBaseType) -> bool {
        self.spec_cast_cmp(other) == Some(Ordering::Less) || self.spec_cast_cmp(other)
            == Some(Ordering::Equal)
    }

    pub fn from_const_val(val: &ConstBaseVal) -> (r: Self)
        ensures
            r == ParameterBaseType::spec_from_const_val(val@),
    {
        match val {
            ConstBaseVal::Bool(_) => ParameterBaseType::Bool,
            ConstBaseVal::Int(_) => ParameterBaseType::Int,
            ConstBaseVal::UInt(_) => ParameterBaseType::UInt,
            ConstBaseVal::Float(_) => ParameterBaseType::Float,
            ConstBaseVal::Double(_) => ParameterBaseType::Double,
        }
    }

    /// Compares along the implicit cast lattice: where `a < b`, a
    /// value of base type `a` can be implicitly cast to `b`.
    pub fn cast_cmp(&self, other: &Self) -> (r: Option<Ordering>)
        ensures
            r == self.spec_cast_cmp(*other),
    {
        if *self == *other {
            Some(Ordering::Equal)
        } else {
            match (self, other) {
                (Self::Int, Self::UInt)
                | (Self::Int, Self::Float)
                | (Self::Int, Self::Double)
                | (Self::UInt, Self::Float)
                | (Self::UInt, Self::Double)
                | (Self::Float, Self::Double) => Some(Ordering::Less),
                (Self::UInt, Self::Int)
                | (Self::Float, Self::Int)
                | (Self::Double, Self::Int)
                | (Self::Float, Self::UInt)
                | (Self::Double, Self::UInt)
                | (Self::Double, Self::Float) => Some(Ordering::Greater),
                _ => None,
            }
        }
    }

    pub fn can_cast_into(&self, other: &Self) -> (r: bool)
        ensures
            r == self.spec_can_cast_into(*other),
    {
        match self.cast_cmp(other) {
            Some(Ordering::Less) | Some(Ordering::Equal) => true,
            _ => false,
        }
    }
}

/// The cast lattice comparison is antisymmetric: swapping the
/// operands reverses a comparable result and keeps an incomparable
/// pair incomparable.
pub proof fn lemma_base_cast_cmp_antisymmetric(a: ParameterBaseType, b: ParameterBaseType)
    ensures
        a.spec_cast_cmp(b) == match b.spec_cast_cmp(a) {
            Some(o) => Some(spec_reverse(o)),
            None => None::<Ordering>,
        },
{
}

/// The shape of a parameter in an overload prototype: the concrete
/// shapes plus the three generic families. `GenericSV` matches any
/// scalar or vector, `GenericM` any matrix, and `GenericSVM` any
/// shape at all.
#[derive(Copy, Clone, PartialEq, Eq, Structural, Debug)]
pub enum ParameterShape {
    Scalar,
    Vec2,
    Vec3,
    Vec4,
    GenericSV,
    Mat2,
    Mat23,
    Mat24,
    Mat32,
    Mat3,
    Mat34,
    Mat42,
    Mat43,
    Mat4,
    GenericM,
    GenericSVM,
}

/// Position in the declaration order, which the prototype comparator
/// uses: concrete scalar and vector shapes first, then the generic
/// scalar-or-vector family, the concrete matrices, and the generic
/// families last.
pub open spec fn spec_shape_rank(s: ParameterShape) -> int {
    match s {
        ParameterShape::Scalar => 0,
        ParameterShape::Vec2 => 1,
        ParameterShape::Vec3 => 2,
        ParameterShape::Vec4 => 3,
        ParameterShape::GenericSV => 4,
        ParameterShape::Mat2 => 5,
        ParameterShape::Mat23 => 6,
        ParameterShape::Mat24 => 7,
        ParameterShape::Mat32 => 8,
        ParameterShape::Mat3 => 9,
        ParameterShape::Mat34 => 10,
        ParameterShape::Mat42 => 11,
        ParameterShape::Mat43 => 12,
        ParameterShape::Mat4 => 13,
        ParameterShape::GenericM => 14,
        ParameterShape::GenericSVM => 15,
    }
}

impl ParameterShape {
    /// Whether a value of shape `val` fits a parameter of this shape:
    /// concrete shapes match exactly, `GenericSV` matches scalars and
    /// vectors, `GenericM` matches matrices, `GenericSVM` everything.
    pub open spec fn spec_matches(self, val: BaseTypeShape) -> bool {
        match self {
            ParameterShape::Scalar => val.spec_is_scalar(),
            ParameterShape::Vec2 => val == BaseTypeShape::Vec2,
            ParameterShape::Vec3 => val == BaseTypeShape::Vec3,
            ParameterShape::Vec4 => val == BaseTypeShape::Vec4,
            ParameterShape::GenericSV => val.spec_is_scalar() || val.spec_is_vector(),
            ParameterShape::Mat2 => val == BaseTypeShape::Mat2,
            ParameterShape::Mat23 => val == BaseTypeShape::Mat23,
            ParameterShape::Mat24 => val == BaseTypeShape::Mat24,
            ParameterShape::Mat32 => val == BaseTypeShape::Mat32,
            ParameterShape::Mat3 => val == BaseTypeShape::Mat3,
            ParameterShape::Mat34 => val == BaseTypeShape::Mat34,
            ParameterShape::Mat42 => val == BaseTypeShape::Mat42,
            ParameterShape::Mat43 => val == BaseTypeShape::Mat43,
            ParameterShape::Mat4 => val == BaseTypeShape::Mat4,
            ParameterShape::GenericM => val.spec_is_matrix(),
            ParameterShape::GenericSVM => true,
        }
    }

    pub fn matches(&self, val: BaseTypeShape) -> (r: bool)
        ensures
            r == self.spec_matches(val),
    {
        match self {
            ParameterShape::Scalar => val.is_scalar(),
            ParameterShape::Vec2 => val == BaseTypeShape::Vec2,
            ParameterShape::Vec3 => val == BaseTypeShape::Vec3,
            ParameterShape::Vec4 => val == BaseTypeShape::Vec4,
            ParameterShape::GenericSV => val.is_scalar() || val.is_vector(),
            ParameterShape::Mat2 => val == BaseTypeShape::Mat2,
            ParameterShape::Mat23 => val == BaseTypeShape::Mat23,
            ParameterShape::Mat24 => val == BaseTypeShape::Mat24,
            ParameterShape::Mat32 => val == BaseTypeShape::Mat32,
            ParameterShape::Mat3 => val == BaseTypeShape::Mat3,
            ParameterShape::Mat34 => val == BaseTypeShape::Mat34,
            ParameterShape::Mat42 => val == BaseTypeShape::Mat42,
            ParameterShape::Mat43 => val == BaseTypeShape::Mat43,
            ParameterShape::Mat4 => val == BaseTypeShape::Mat4,
            ParameterShape::GenericM => val.is_matrix(),
            ParameterShape::GenericSVM => true,
        }
    }
}

/// The declared type of one parameter of an overload prototype.
#[derive(Copy, Clone, PartialEq, Eq, Structural, Debug)]
pub struct ParameterType {
    pub base_type: ParameterBaseType,
    pub shape: ParameterShape,
}

impl ParameterType {
    /// Dispatch order of two parameter types: first by shape in
    /// declaration order, then by base type along the cast lattice,
    /// with incomparable base types falling back to the declaration
    /// order so that the whole relation is a total order.
    pub open spec fn spec_cast_cmp(self, other: ParameterType) -> Ordering {
        if self.shape != other.shape {
            spec_ord_of_ranks(spec_shape_rank(self.shape), spec_shape_rank(other.shape))
        } else {
            match self.base_type.spec_cast_cmp(other.base_type) {
                Some(o) => o,
                None => spec_ord_of_ranks(
                    spec_base_rank(self.base_type),
                    spec_base_rank(other.base_type),
                ),
            }
        }
    }

    pub fn new(base_type: ParameterBaseType, shape: ParameterShape) -> (r: Self)
        ensures
            r.base_type == base_type,
            r.shape == shape,
    {
        Self { base_type, shape }
    }

    /// Compare function of the implicit casting rules: where a value
    /// of type `a` can be implicitly cast to `b`, `a` sorts before
    /// `b`. The converse need not hold; incomparable types are merely
    /// ordered consistently.
    pub fn cast_cmp(&self, other: &Self) -> (r: Ordering)
        ensures
            r == self.spec_cast_cmp(*other),
    {
        let sr = shape_rank(self.shape);
        let or = shape_rank(other.shape);
        if sr != or {
            if sr < or {
                Ordering::Less
            } else {
                Ordering::Greater
            }
        } else {
            proof {
                lemma_shape_rank_injective(self.shape, other.shape);
            }
            match self.base_type.cast_cmp(&other.base_type) {
                Some(o) => o,
                None => {
                    let sb = base_rank(self.base_type);
                    let ob = base_rank(other.base_type);
                    if sb < ob {
                        Ordering::Less
                    } else if sb == ob {
                        Ordering::Equal
                    } else {
                        Ordering::Greater
                    }
                },
            }
        }
    }
}

fn shape_rank(s: ParameterShape) -> (r: usize)
    ensures
        r as int == spec_shape_rank(s),
{
    match s {
        ParameterShape::Scalar => 0,
        ParameterShape::Vec2 => 1,
        ParameterShape::Vec3 => 2,
        ParameterShape::Vec4 => 3,
        ParameterShape::GenericSV => 4,
        ParameterShape::Mat2 => 5,
        ParameterShape::Mat23 => 6,
        ParameterShape::Mat24 => 7,
        ParameterShape::Mat32 => 8,
        ParameterShape::Mat3 => 9,
        ParameterShape::Mat34 => 10,
        ParameterShape::Mat42 => 11,
        ParameterShape::Mat43 => 12,
        ParameterShape::Mat4 => 13,
        ParameterShape::GenericM => 14,
        ParameterShape::GenericSVM => 15,
    }
}

fn base_rank(b: ParameterBaseType) -> (r: usize)
    ensures
        r as int == spec_base_rank(b),
{
    match b {
        ParameterBaseType::Bool => 0,
        ParameterBaseType::Int => 1,
        ParameterBaseType::UInt => 2,
        ParameterBaseType::Float => 3,
        ParameterBaseType::Double => 4,
    }
}

proof fn lemma_shape_rank_injective(a: ParameterShape, b: ParameterShape)
    ensures
        spec_shape_rank(a) == spec_shape_rank(b) ==> a == b,
{
}

/// The dispatch order of parameter types agrees with the plain
/// lexicographic comparison of shape rank and base-type rank.
pub proof fn lemma_param_type_cmp_is_rank_lex(a: ParameterType, b: ParameterType)
    ensures
        a.spec_cast_cmp(b) == (if spec_shape_rank(a.shape) != spec_shape_rank(b.shape) {
            spec_ord_of_ranks(spec_shape_rank(a.shape), spec_shape_rank(b.shape))
        } else {
            spec_ord_of_ranks(spec_base_rank(a.base_type), spec_base_rank(b.base_type))
        }),
{
    lemma_shape_rank_injective(a.shape, b.shape);
}

/// The dispatch order of parameter types is consistent: swapping the
/// arguments reverses the result, and two types compare equal exactly
/// when they are equal.
pub proof fn lemma_param_type_cmp_antisymmetric(a: ParameterType, b: ParameterType)
    ensures
        a.spec_cast_cmp(b) == spec_reverse(b.spec_cast_cmp(a)),
        a.spec_cast_cmp(b) == Ordering::Equal <==> a == b,
{
    lemma_shape_rank_injective(a.shape, b.shape);
}

/// The dispatch order of parameter types is transitive over its
/// non-strict form.
pub proof fn lemma_param_type_cmp_transitive(a: ParameterType, b: ParameterType, c: ParameterType)
    requires
        a.spec_cast_cmp(b) != Ordering::Greater,
        b.spec_cast_cmp(c) != Ordering::Greater,
    ensures
        a.spec_cast_cmp(c) != Ordering::Greater,
{
    lemma_param_type_cmp_is_rank_lex(a, b);
    lemma_param_type_cmp_is_rank_lex(b, c);
    lemma_param_type_cmp_is_rank_lex(a, c);
    lemma_shape_rank_injective(a.shape, b.shape);
    lemma_shape_rank_injective(b.shape, c.shape);
    lemma_shape_rank_injective(a.shape, c.shape);
}

} // verus!
