use vstd::prelude::*;
use crate::shape::BaseTypeShape;
use crate::param::ParameterBaseType;

verus! {

/// A non-array surface type of the language: a base type with a
/// shape (`ivec3` is the integer `Vec3`), or a structure type,
/// carried by its declared name where it has one.
#[derive(Debug)]
pub enum TypeSpecifierNonArray {
    Base(ParameterBaseType, BaseTypeShape),
    Struct(Option<String>),
}

pub ghost enum TypeSpecNAView {
    Base(ParameterBaseType, BaseTypeShape),
    Struct(Option<Seq<char>>),
}

impl View for TypeSpecifierNonArray {
    type V = TypeSpecNAView;

    open spec fn view(&self) -> TypeSpecNAView {
        match self {
            TypeSpecifierNonArray::Base(b, s) => TypeSpecNAView::Base(*b, *s),
            TypeSpecifierNonArray::Struct(n) => TypeSpecNAView::Struct(
                match n {
                    Some(s) => Some(s@),
                    None => None,
                },
            ),
        }
    }
}

/// A surface type with an optional array specifier, the sizes of the
/// array dimensions.
#[derive(Debug)]
pub struct TypeSpecifier {
    pub ty: TypeSpecifierNonArray,
    pub array_dims: Option<Vec<u32>>,
}

pub ghost struct TypeSpecView {
    pub ty: TypeSpecNAView,
    pub array_dims: Option<Seq<u32>>,
}

impl View for TypeSpecifier {
    type V = TypeSpecView;

    open spec fn view(&self) -> TypeSpecView {
        TypeSpecView {
            ty: self.ty@,
            array_dims: match &self.array_dims {
                Some(d) => Some(d@),
                None => None,
            },
        }
    }
}

pub(crate) fn clone_type_spec_na(t: &TypeSpecifierNonArray) -> (r: TypeSpecifierNonArray)
    ensures
        r@ == t@,
{
    match t {
        TypeSpecifierNonArray::Base(b, s) => TypeSpecifierNonArray::Base(*b, *s),
        TypeSpecifierNonArray::Struct(n) => TypeSpecifierNonArray::Struct(
            match n {
                Some(s) => Some(s.clone()),
                None => None,
            },
        ),
    }
}

/// The surface-syntax name of a non-structure type, as the language
/// spells it: `bool`, `ivec3`, `uvec2`, `vec4`, `dmat23` and so on.
pub open spec fn spec_surface_name(b: ParameterBaseType, s: BaseTypeShape) -> Seq<char> {
    match b {
        ParameterBaseType::Bool => match s {
            BaseTypeShape::Scalar => "bool"@,
            BaseTypeShape::Vec2 => "bvec2"@,
            BaseTypeShape::Vec3 => "bvec3"@,
            BaseTypeShape::Vec4 => "bvec4"@,
            _ => ""@,
        },
        ParameterBaseType::Int => match s {
            BaseTypeShape::Scalar => "int"@,
            BaseTypeShape::Vec2 => "ivec2"@,
            BaseTypeShape::Vec3 => "ivec3"@,
            BaseTypeShape::Vec4 => "ivec4"@,
            _ => ""@,
        },
        ParameterBaseType::UInt => match s {
            BaseTypeShape::Scalar => "uint"@,
            BaseTypeShape::Vec2 => "uvec2"@,
            BaseTypeShape::Vec3 => "uvec3"@,
            BaseTypeShape::Vec4 => "uvec4"@,
            _ => ""@,
        },
        ParameterBaseType::Float => match s {
            BaseTypeShape::Scalar => "float"@,
            BaseTypeShape::Vec2 => "vec2"@,
            BaseTypeShape::Vec3 => "vec3"@,
            BaseTypeShape::Vec4 => "vec4"@,
            BaseTypeShape::Mat2 => "mat2"@,
            BaseTypeShape::Mat23 => "mat23"@,
            BaseTypeShape::Mat24 => "mat24"@,
            BaseTypeShape::Mat32 => "mat32"@,
            BaseTypeShape::Mat3 => "mat3"@,
            BaseTypeShape::Mat34 => "mat34"@,
            BaseTypeShape::Mat42 => "mat42"@,
            BaseTypeShape::Mat43 => "mat43"@,
            BaseTypeShape::Mat4 => "mat4"@,
        },
        ParameterBaseType::Double => match s {
            BaseTypeShape::Scalar => "double"@,
            BaseTypeShape::Vec2 => "dvec2"@,
            BaseTypeShape::Vec3 => "dvec3"@,
            BaseTypeShape::Vec4 => "dvec4"@,
            BaseTypeShape::Mat2 => "dmat2"@,
            BaseTypeShape::Mat23 => "dmat23"@,
            BaseTypeShape::Mat24 => "dmat24"@,
            BaseTypeShape::Mat32 => "dmat32"@,
            BaseTypeShape::Mat3 => "dmat3"@,
            BaseTypeShape::Mat34 => "dmat34"@,
            BaseTypeShape::Mat42 => "dmat42"@,
            BaseTypeShape::Mat43 => "dmat43"@,
            BaseTypeShape::Mat4 => "dmat4"@,
        },
    }
}

/// The surface-syntax name of a non-structure type; the empty string
/// for the combinations the language has no type for (boolean or
/// integer matrices).
pub fn surface_name(b: ParameterBaseType, s: BaseTypeShape) -> (r: String)
    ensures
        r@ == spec_surface_name(b, s),
{
    match b {
        ParameterBaseType::Bool => match s {
            BaseTypeShape::Scalar => String::from_str("bool"),
            BaseTypeShape::Vec2 => String::from_str("bvec2"),
            BaseTypeShape::Vec3 => String::from_str("bvec3"),
            BaseTypeShape::Vec4 => String::from_str("bvec4"),
            _ => String::from_str(""),
        },
        ParameterBaseType::Int => match s {
            BaseTypeShape::Scalar => String::from_str("int"),
            BaseTypeShape::Vec2 => String::from_str("ivec2"),
            BaseTypeShape::Vec3 => String::from_str("ivec3"),
            BaseTypeShape::Vec4 => String::from_str("ivec4"),
            _ => String::from_str(""),
        },
        ParameterBaseType::UInt => match s {
            BaseTypeShape::Scalar => String::from_str("uint"),
            BaseTypeShape::Vec2 => String::from_str("uvec2"),
            BaseTypeShape::Vec3 => String::from_str("uvec3"),
            BaseTypeShape::Vec4 => String::from_str("uvec4"),
            _ => String::from_str(""),
        },
        ParameterBaseType::Float => match s {
            BaseTypeShape::Scalar => String::from_str("float"),
            BaseTypeShape::Vec2 => String::from_str("vec2"),
            BaseTypeShape::Vec3 => String::from_str("vec3"),
            BaseTypeShape::Vec4 => String::from_str("vec4"),
            BaseTypeShape::Mat2 => String::from_str("mat2"),
            BaseTypeShape::Mat23 => String::from_str("mat23"),
            BaseTypeShape::Mat24 => String::from_str("mat24"),
            BaseTypeShape::Mat32 => String::from_str("mat32"),
            BaseTypeShape::Mat3 => String::from_str("mat3"),
            BaseTypeShape::Mat34 => String::from_str("mat34"),
            BaseTypeShape::Mat42 => String::from_str("mat42"),
            BaseTypeShape::Mat43 => String::from_str("mat43"),
            BaseTypeShape::Mat4 => String::from_str("mat4"),
        },
        ParameterBaseType::Double => match s {
            BaseTypeShape::Scalar => String::from_str("double"),
            BaseTypeShape::Vec2 => String::from_str("dvec2"),
            BaseTypeShape::Vec3 => String::from_str("dvec3"),
            BaseTypeShape::Vec4 => String::from_str("dvec4"),
            BaseTypeShape::Mat2 => String::from_str("dmat2"),
            BaseTypeShape::Mat23 => String::from_str("dmat23"),
            BaseTypeShape::Mat24 => String::from_str("dmat24"),
            BaseTypeShape::Mat32 => String::from_str("dmat32"),
            BaseTypeShape::Mat3 => String::from_str("dmat3"),
            BaseTypeShape::Mat34 => String::from_str("dmat34"),
            BaseTypeShape::Mat42 => String::from_str("dmat42"),
            BaseTypeShape::Mat43 => String::from_str("dmat43"),
            BaseTypeShape::Mat4 => String::from_str("dmat4"),
        },
    }
}

} // verus!
