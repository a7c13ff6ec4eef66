//! Constant evaluation and constant propagation for a strongly typed
//! shading language.
//!
//! The library works on an abstract syntax tree of expressions over
//! scalar, vector and matrix values of the five base types `bool`,
//! `i32`, `u32`, single precision and double precision floating point.
//! Floating point values are carried as their IEEE-754 bit patterns;
//! the scalar floating point operations themselves are delegated to
//! the host's floating point unit through a small set of trusted
//! wrappers.
//!
//! The propagator recognises sub-expressions whose value is fully
//! determined at translation time, folds them into typed constant
//! values through an overload dispatcher over the language's implicit
//! cast lattice, and rewrites the tree so that every such
//! sub-expression is replaced by a canonical constant literal.

mod shape;
mod scalar;
mod value;
mod param;
mod ast;
mod types;
mod composite;
mod ops;
mod builtin;
mod dispatch;
mod literal;
mod propagate;

pub use shape::BaseTypeShape;
pub use scalar::{F32Bits, F64Bits, UnaryElemOp, BinElemOp, CmpElemOp, ScalarElem};
pub use value::{ConstSVMVal, SvmView, ConstBaseVal, BaseValView};
pub use param::{ParameterBaseType, ParameterShape, ParameterType};
pub use ast::{Expr, ExprView, UnaryOp, BinaryOp, AssignmentOp, FunIdentifier, ArraySpecDim};
pub use types::{TypeSpecifierNonArray, TypeSpecifier};
pub use composite::{ConstVal, ValView, ConstArray, ConstStruct, clone_const_val};
pub use ops::ShiftDir;
pub use dispatch::{EvalOp, ConstEvalFunctionInstance, ConstEvalFunctionBuilder, ConstEvalFunction,
    InstanceView};
pub use builtin::{OperatorTables, builtin_operators, builtin_functions,
    register_constructor_const_functions, register_builtin_const_functions, ScalarConstruct};
pub use propagate::{ConstLookup, ConstEvalFunctionLookup, ConstValOrExpr, ConstEvalError,
    FunctionRegistry, ScopedConstLookup, EmptyConstLookup, ConstBindings,
    const_propagate_expr};
pub use ast::{clone_expr, expr_eq, expr_list_eq, fun_ident_eq};
pub use types::surface_name;
pub use scalar::{F32_ONE_BITS, F64_ONE_BITS};
