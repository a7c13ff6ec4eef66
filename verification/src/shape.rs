use vstd::prelude::*;

verus! {

/// The dimensional tag of a shaped constant value: a scalar, one of the
/// three vector widths, or one of the nine matrix shapes. A matrix tag
/// `MatRC` has `R` rows and `C` columns (`Mat2` abbreviates `Mat22` and
/// so on); storage of shaped values is dense and column-major.
#[derive(Copy, Clone, PartialEq, Eq, Structural, Debug)]
pub enum BaseTypeShape {
    Scalar,
    Vec2,
    Vec3,
    Vec4,
    Mat2,
    Mat23,
    Mat24,
    Mat32,
    Mat3,
    Mat34,
    Mat42,
    Mat43,
    Mat4,
}

impl BaseTypeShape {
    /// How many elements a value of this shape stores: 1 for a scalar,
    /// N for a vecN, rows times columns for a matrix.
    pub open spec fn spec_width(self) -> nat {
        match self {
            BaseTypeShape::Scalar => 1,
            BaseTypeShape::Vec2 => 2,
            BaseTypeShape::Vec3 => 3,
            BaseTypeShape::Vec4 => 4,
            BaseTypeShape::Mat2 => 4,
            BaseTypeShape::Mat23 => 6,
            BaseTypeShape::Mat24 => 8,
            BaseTypeShape::Mat32 => 6,
            BaseTypeShape::Mat3 => 9,
            BaseTypeShape::Mat34 => 12,
            BaseTypeShape::Mat42 => 8,
            BaseTypeShape::Mat43 => 12,
            BaseTypeShape::Mat4 => 16,
        }
    }

    /// Rows of a matrix shape; a vecN is a column vector with N rows.
    pub open spec fn spec_rows(self) -> nat {
        match self {
            BaseTypeShape::Scalar => 1,
            BaseTypeShape::Vec2 => 2,
            BaseTypeShape::Vec3 => 3,
            BaseTypeShape::Vec4 => 4,
            BaseTypeShape::Mat2 => 2,
            BaseTypeShape::Mat23 => 2,
            BaseTypeShape::Mat24 => 2,
            BaseTypeShape::Mat32 => 3,
            BaseTypeShape::Mat3 => 3,
            BaseTypeShape::Mat34 => 3,
            BaseTypeShape::Mat42 => 4,
            BaseTypeShape::Mat43 => 4,
            BaseTypeShape::Mat4 => 4,
        }
    }

    /// Columns of a matrix shape; scalars and vectors have one column.
    pub open spec fn spec_cols(self) -> nat {
        match self {
            BaseTypeShape::Scalar => 1,
            BaseTypeShape::Vec2 => 1,
            BaseTypeShape::Vec3 => 1,
            BaseTypeShape::Vec4 => 1,
            BaseTypeShape::Mat2 => 2,
            BaseTypeShape::Mat23 => 3,
            BaseTypeShape::Mat24 => 4,
            BaseTypeShape::Mat32 => 2,
            BaseTypeShape::Mat3 => 3,
            BaseTypeShape::Mat34 => 4,
            BaseTypeShape::Mat42 => 2,
            BaseTypeShape::Mat43 => 3,
            BaseTypeShape::Mat4 => 4,
        }
    }

    pub open spec fn spec_is_scalar(self) -> bool {
        self == BaseTypeShape::Scalar
    }

    pub open spec fn spec_is_vector(self) -> bool {
        self == BaseTypeShape::Vec2 || self == BaseTypeShape::Vec3 || self == BaseTypeShape::Vec4
    }

    pub open spec fn spec_is_matrix(self) -> bool {
        !self.spec_is_scalar() && !self.spec_is_vector()
    }

    /// The vector shape with `n` rows, for `n` in 2, 3 or 4.
    pub open spec fn spec_vec_of(n: nat) -> BaseTypeShape {
        if n == 2 {
            BaseTypeShape::Vec2
        } else if n == 3 {
            BaseTypeShape::Vec3
        } else {
            BaseTypeShape::Vec4
        }
    }

    pub fn is_scalar(&self) -> (r: bool)
        ensures
            r == self.spec_is_scalar(),
    {
        match self {
            BaseTypeShape::Scalar => true,
            _ => false,
        }
    }

    pub fn is_vector(&self) -> (r: bool)
        ensures
            r == self.spec_is_vector(),
    {
        match self {
            BaseTypeShape::Vec2 | BaseTypeShape::Vec3 | BaseTypeShape::Vec4 => true,
            _ => false,
        }
    }

    pub fn is_matrix(&self) -> (r: bool)
        ensures
            r == self.spec_is_matrix(),
    {
        match self {
            BaseTypeShape::Mat2
            | BaseTypeShape::Mat23
            | BaseTypeShape::Mat24
            | BaseTypeShape::Mat32
            | BaseTypeShape::Mat3
            | BaseTypeShape::Mat34
            | BaseTypeShape::Mat42
            | BaseTypeShape::Mat43
            | BaseTypeShape::Mat4 => true,
            _ => false,
        }
    }

    pub fn width(&self) -> (w: usize)
        ensures
            w == self.spec_width(),
    {
        match self {
            BaseTypeShape::Scalar => 1,
            BaseTypeShape::Vec2 => 2,
            BaseTypeShape::Vec3 => 3,
            BaseTypeShape::Vec4 => 4,
            BaseTypeShape::Mat2 => 4,
            BaseTypeShape::Mat23 => 6,
            BaseTypeShape::Mat24 => 8,
            BaseTypeShape::Mat32 => 6,
            BaseTypeShape::Mat3 => 9,
            BaseTypeShape::Mat34 => 12,
            BaseTypeShape::Mat42 => 8,
            BaseTypeShape::Mat43 => 12,
            BaseTypeShape::Mat4 => 16,
        }
    }

    pub fn rows(&self) -> (r: usize)
        ensures
            r == self.spec_rows(),
    {
        match self {
            BaseTypeShape::Scalar => 1,
            BaseTypeShape::Vec2 => 2,
            BaseTypeShape::Vec3 => 3,
            BaseTypeShape::Vec4 => 4,
            BaseTypeShape::Mat2 => 2,
            BaseTypeShape::Mat23 => 2,
            BaseTypeShape::Mat24 => 2,
            BaseTypeShape::Mat32 => 3,
            BaseTypeShape::Mat3 => 3,
            BaseTypeShape::Mat34 => 3,
            BaseTypeShape::Mat42 => 4,
            BaseTypeShape::Mat43 => 4,
            BaseTypeShape::Mat4 => 4,
        }
    }

    pub fn cols(&self) -> (c: usize)
        ensures
            c == self.spec_cols(),
    {
        match self {
            BaseTypeShape::Scalar => 1,
            BaseTypeShape::Vec2 => 1,
            BaseTypeShape::Vec3 => 1,
            BaseTypeShape::Vec4 => 1,
            BaseTypeShape::Mat2 => 2,
            BaseTypeShape::Mat23 => 3,
            BaseTypeShape::Mat24 => 4,
            BaseTypeShape::Mat32 => 2,
            BaseTypeShape::Mat3 => 3,
            BaseTypeShape::Mat34 => 4,
            BaseTypeShape::Mat42 => 2,
            BaseTypeShape::Mat43 => 3,
            BaseTypeShape::Mat4 => 4,
        }
    }
}

/// The element count of every shape is its row count times its column
/// count, and lies between 1 and 16.
pub proof fn lemma_width_rows_cols(s: BaseTypeShape)
    ensures
        s.spec_width() == s.spec_rows() * s.spec_cols(),
        1 <= s.spec_width() <= 16,
{
}

} // verus!
