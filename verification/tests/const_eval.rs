use glsl_const_eval::{
    builtin_functions, builtin_operators, const_propagate_expr, BaseTypeShape, ConstBaseVal,
    ConstEvalError, ConstEvalFunctionInstance, ConstLookup, ConstSVMVal, ConstVal, ConstValOrExpr,
    EvalOp, Expr, F32Bits, F64Bits, FunIdentifier, FunctionRegistry, ParameterBaseType,
    ParameterShape, ParameterType, ScopedConstLookup, UnaryElemOp, UnaryOp, BinaryOp,
};
use glsl_const_eval::{ConstBindings, EmptyConstLookup};
use std::cmp::Ordering;

fn f32b(x: f32) -> F32Bits {
    F32Bits { bits: x.to_bits() }
}

fn f64b(x: f64) -> F64Bits {
    F64Bits { bits: x.to_bits() }
}

fn prop(e: &Expr) -> Result<ConstValOrExpr, ConstEvalError> {
    let ops = builtin_operators();
    let fns = builtin_functions();
    const_propagate_expr(e, &EmptyConstLookup, &fns, &ops)
}

fn expect_base(r: Result<ConstValOrExpr, ConstEvalError>) -> ConstBaseVal {
    match r {
        Ok(ConstValOrExpr::Const(ConstVal::Base(b))) => b,
        other => panic!("expected a constant basic value, got {:?}", other),
    }
}

fn base_eq(a: &ConstBaseVal, b: &ConstBaseVal) -> bool {
    fn svm_eq<T: Copy + PartialEq>(x: &ConstSVMVal<T>, y: &ConstSVMVal<T>) -> bool {
        x.shape == y.shape && x.elems == y.elems
    }
    match (a, b) {
        (ConstBaseVal::Bool(x), ConstBaseVal::Bool(y)) => svm_eq(x, y),
        (ConstBaseVal::Int(x), ConstBaseVal::Int(y)) => svm_eq(x, y),
        (ConstBaseVal::UInt(x), ConstBaseVal::UInt(y)) => svm_eq(x, y),
        (ConstBaseVal::Float(x), ConstBaseVal::Float(y)) => svm_eq(x, y),
        (ConstBaseVal::Double(x), ConstBaseVal::Double(y)) => svm_eq(x, y),
        _ => false,
    }
}

#[test]
fn base_type_order_samples() {
    assert_eq!(
        ParameterBaseType::Bool.cast_cmp(&ParameterBaseType::Bool),
        Some(Ordering::Equal)
    );
    assert_eq!(ParameterBaseType::Bool.cast_cmp(&ParameterBaseType::Float), None);
    assert_eq!(
        ParameterBaseType::Int.cast_cmp(&ParameterBaseType::UInt),
        Some(Ordering::Less)
    );
    assert_eq!(
        ParameterBaseType::Double.cast_cmp(&ParameterBaseType::UInt),
        Some(Ordering::Greater)
    );
}

const BASE_TYPE_VALUES: &[ParameterBaseType] = &[
    ParameterBaseType::Bool,
    ParameterBaseType::Int,
    ParameterBaseType::UInt,
    ParameterBaseType::Float,
    ParameterBaseType::Double,
];

const SHAPE_VALUES: &[ParameterShape] = &[
    ParameterShape::Scalar,
    ParameterShape::Vec2,
    ParameterShape::Vec3,
    ParameterShape::Vec4,
    ParameterShape::Mat2,
    ParameterShape::Mat23,
    ParameterShape::Mat24,
    ParameterShape::Mat32,
    ParameterShape::Mat3,
    ParameterShape::Mat34,
    ParameterShape::Mat42,
    ParameterShape::Mat43,
    ParameterShape::Mat4,
    ParameterShape::GenericM,
    ParameterShape::GenericSV,
    ParameterShape::GenericSVM,
];

#[test]
fn base_type_order_consistency() {
    for a in BASE_TYPE_VALUES {
        for b in BASE_TYPE_VALUES {
            let expected_bca = a.cast_cmp(b).map(Ordering::reverse);
            assert_eq!(b.cast_cmp(a), expected_bca);
        }
    }
}

#[test]
fn parameter_type_order_consistency() {
    let mut types = Vec::with_capacity(BASE_TYPE_VALUES.len() * SHAPE_VALUES.len());
    for base_type in BASE_TYPE_VALUES {
        for size in SHAPE_VALUES {
            types.push(ParameterType::new(*base_type, *size));
        }
    }
    for a in &types {
        for b in &types {
            let expected_bca = a.cast_cmp(b).reverse();
            assert_eq!(b.cast_cmp(a), expected_bca);
        }
    }
}

#[test]
fn parameter_type_order_samples() {
    let check = |ty1: ParameterType, ty2: ParameterType| {
        assert_eq!(ty1.cast_cmp(&ty2), Ordering::Less);
    };
    type T = ParameterType;
    type B = ParameterBaseType;
    type S = ParameterShape;
    check(T::new(B::Int, S::Scalar), T::new(B::UInt, S::Scalar));
    check(T::new(B::Int, S::Scalar), T::new(B::Float, S::Scalar));
    check(T::new(B::Int, S::Scalar), T::new(B::Double, S::Scalar));
    check(T::new(B::Bool, S::Mat3), T::new(B::Bool, S::GenericSVM));
    check(T::new(B::UInt, S::Mat3), T::new(B::UInt, S::GenericSVM));
    check(T::new(B::Double, S::Mat3), T::new(B::Double, S::GenericSVM));
}

#[test]
fn const_eval_function_instance_compatibility() {
    type S = BaseTypeShape;
    type T = ParameterBaseType;

    let func = ConstEvalFunctionInstance::from_fn_0(5u32);
    assert!(func.compatible_with(&vec![]));
    assert!(!func.compatible_with(&vec![(S::Scalar, T::Bool)]));
    assert!(!func.compatible_with(&vec![
        (S::Mat4, T::Float),
        (S::Mat4, T::Float),
        (S::Mat4, T::Float),
        (S::Mat4, T::Float),
        (S::Mat4, T::Float)
    ]));

    let func = ConstEvalFunctionInstance::from_fn_1(
        ParameterType::new(T::Double, ParameterShape::Mat4),
        EvalOp::Unary(UnaryElemOp::Identity),
    );
    assert!(!func.compatible_with(&vec![]));
    assert!(func.compatible_with(&vec![(S::Mat4, T::Float)]));
    assert!(func.compatible_with(&vec![(S::Mat4, T::Double)]));
    assert!(!func.compatible_with(&vec![(S::Mat4, T::Float), (S::Mat4, T::Float)]));
}

fn mat4_diag_off_f32(x: f32, off: f32) -> ConstBaseVal {
    let mut elems = Vec::new();
    for i in 0..16usize {
        let r = i % 4;
        let c = i / 4;
        elems.push(f32b(if r == c { x } else { off }));
    }
    ConstBaseVal::Float(ConstSVMVal { shape: BaseTypeShape::Mat4, elems })
}

fn mat4_diag_f32(x: f32) -> ConstBaseVal {
    mat4_diag_off_f32(x, 0.0)
}

#[test]
fn op_unary_add() {
    let ops = builtin_operators();
    let v = ConstBaseVal::new_bool(true);
    assert!(ops.unary_add.eval(&vec![v]).is_none());
    let v = ConstBaseVal::new_int(-3);
    assert!(base_eq(&ops.unary_add.eval(&vec![v]).unwrap(), &ConstBaseVal::new_int(-3)));
    let v = ConstBaseVal::UInt(ConstSVMVal::new_vec2(4u32, 4u32));
    let w = ConstBaseVal::UInt(ConstSVMVal::new_vec2(4u32, 4u32));
    assert!(base_eq(&ops.unary_add.eval(&vec![v]).unwrap(), &w));
    let v = mat4_diag_f32(-34.0);
    assert!(base_eq(&ops.unary_add.eval(&vec![v]).unwrap(), &mat4_diag_f32(-34.0)));
    let v = ConstBaseVal::Double(ConstSVMVal::new_vec4(
        f64b(-9.0),
        f64b(0.0),
        f64b(3.78342979823),
        f64b(1.0),
    ));
    let w = ConstBaseVal::Double(ConstSVMVal::new_vec4(
        f64b(-9.0),
        f64b(0.0),
        f64b(3.78342979823),
        f64b(1.0),
    ));
    assert!(base_eq(&ops.unary_add.eval(&vec![v]).unwrap(), &w));
}

#[test]
fn op_unary_minus() {
    let ops = builtin_operators();
    assert!(ops.unary_minus.eval(&vec![ConstBaseVal::new_bool(true)]).is_none());
    assert!(base_eq(
        &ops.unary_minus.eval(&vec![ConstBaseVal::new_int(-3)]).unwrap(),
        &ConstBaseVal::new_int(3)
    ));
    let v = ConstBaseVal::UInt(ConstSVMVal::new_vec2(4u32, 4u32));
    let w = ConstBaseVal::UInt(ConstSVMVal::new_vec2(4294967292u32, 4294967292u32));
    assert!(base_eq(&ops.unary_minus.eval(&vec![v]).unwrap(), &w));
    // the value comparison is by bit pattern, so the negated zeros
    // off the diagonal are negative zeros
    assert!(base_eq(
        &ops.unary_minus.eval(&vec![mat4_diag_f32(-34.0)]).unwrap(),
        &mat4_diag_off_f32(34.0, -0.0)
    ));
    let v = ConstBaseVal::Double(ConstSVMVal::new_vec4(
        f64b(-9.0),
        f64b(0.0),
        f64b(3.78342979823),
        f64b(1.0),
    ));
    let w = ConstBaseVal::Double(ConstSVMVal::new_vec4(
        f64b(9.0),
        f64b(-0.0),
        f64b(-3.78342979823),
        f64b(-1.0),
    ));
    assert!(base_eq(&ops.unary_minus.eval(&vec![v]).unwrap(), &w));
}

#[test]
fn op_unary_not() {
    let ops = builtin_operators();
    assert!(base_eq(
        &ops.unary_not.eval(&vec![ConstBaseVal::new_bool(true)]).unwrap(),
        &ConstBaseVal::new_bool(false)
    ));
    let bv = ConstBaseVal::Bool(ConstSVMVal::new_vec3(false, false, false));
    assert!(ops.unary_not.eval(&vec![bv]).is_none());
    assert!(ops.unary_not.eval(&vec![ConstBaseVal::new_int(-3)]).is_none());
    let uv = ConstBaseVal::UInt(ConstSVMVal::new_vec2(4u32, 4u32));
    assert!(ops.unary_not.eval(&vec![uv]).is_none());
    assert!(ops.unary_not.eval(&vec![mat4_diag_f32(-34.0)]).is_none());
    let dv = ConstBaseVal::Double(ConstSVMVal::new_vec4(
        f64b(-9.0),
        f64b(0.0),
        f64b(3.78342979823),
        f64b(1.0),
    ));
    assert!(ops.unary_not.eval(&vec![dv]).is_none());
}

#[test]
fn const_propagate_expr_base_construct() {
    let r = prop(&Expr::IntConst(-43));
    assert!(base_eq(&expect_base(r), &ConstBaseVal::new_int(-43)));
}

#[test]
fn propagate_int_addition() {
    // -3 + 5 folds to the signed scalar 2
    let e = Expr::Binary(
        BinaryOp::Add,
        Box::new(Expr::Unary(UnaryOp::Minus, Box::new(Expr::IntConst(3)))),
        Box::new(Expr::IntConst(5)),
    );
    assert!(base_eq(&expect_base(prop(&e)), &ConstBaseVal::new_int(2)));
}

#[test]
fn propagate_uvec_broadcast_addition() {
    // uvec2(1, 2) + 3 folds to uvec2(4, 5)
    let e = Expr::Binary(
        BinaryOp::Add,
        Box::new(Expr::FunCall(
            FunIdentifier::Identifier("uvec2".to_string()),
            vec![Expr::UIntConst(1), Expr::UIntConst(2)],
        )),
        Box::new(Expr::UIntConst(3)),
    );
    let w = ConstBaseVal::UInt(ConstSVMVal::new_vec2(4u32, 5u32));
    assert!(base_eq(&expect_base(prop(&e)), &w));
}

#[test]
fn propagate_matrix_vector_product() {
    // mat2(1.0) * vec2(1.0, 2.0) folds to vec2(1.0, 2.0)
    let e = Expr::Binary(
        BinaryOp::Mult,
        Box::new(Expr::FunCall(
            FunIdentifier::Identifier("mat2".to_string()),
            vec![Expr::FloatConst(f32b(1.0))],
        )),
        Box::new(Expr::FunCall(
            FunIdentifier::Identifier("vec2".to_string()),
            vec![Expr::FloatConst(f32b(1.0)), Expr::FloatConst(f32b(2.0))],
        )),
    );
    let w = ConstBaseVal::Float(ConstSVMVal::new_vec2(f32b(1.0), f32b(2.0)));
    assert!(base_eq(&expect_base(prop(&e)), &w));
}

#[test]
fn propagate_ternary_selects_branch() {
    // (true ? 1 : 2) * x with x free leaves 1 * x
    let e = Expr::Binary(
        BinaryOp::Mult,
        Box::new(Expr::Ternary(
            Box::new(Expr::BoolConst(true)),
            Box::new(Expr::IntConst(1)),
            Box::new(Expr::IntConst(2)),
        )),
        Box::new(Expr::Variable("x".to_string())),
    );
    let expected = Expr::Binary(
        BinaryOp::Mult,
        Box::new(Expr::IntConst(1)),
        Box::new(Expr::Variable("x".to_string())),
    );
    match prop(&e) {
        Ok(ConstValOrExpr::Expr(out)) => {
            assert!(glsl_const_eval::expr_eq(&out, &expected));
        }
        other => panic!("expected a residual expression, got {:?}", other),
    }
}

#[test]
fn propagate_bvec_equality() {
    // bvec3(true) == bvec3(true, true, false) folds to false
    let e = Expr::Binary(
        BinaryOp::Equal,
        Box::new(Expr::FunCall(
            FunIdentifier::Identifier("bvec3".to_string()),
            vec![Expr::BoolConst(true)],
        )),
        Box::new(Expr::FunCall(
            FunIdentifier::Identifier("bvec3".to_string()),
            vec![
                Expr::BoolConst(true),
                Expr::BoolConst(true),
                Expr::BoolConst(false),
            ],
        )),
    );
    assert!(base_eq(&expect_base(prop(&e)), &ConstBaseVal::new_bool(false)));
}

#[test]
fn propagate_short_vec3_constructor_fails() {
    // vec3(1.0, 2.0) * 0.5 has no constructor for vec3 from two scalars
    let e = Expr::Binary(
        BinaryOp::Mult,
        Box::new(Expr::FunCall(
            FunIdentifier::Identifier("vec3".to_string()),
            vec![Expr::FloatConst(f32b(1.0)), Expr::FloatConst(f32b(2.0))],
        )),
        Box::new(Expr::FloatConst(f32b(0.5))),
    );
    match prop(&e) {
        Err(ConstEvalError::NoMatchingFunctionOverload) => {}
        other => panic!("expected a missing overload error, got {:?}", other),
    }
}

#[test]
fn propagate_float_addition_exact() {
    let e = Expr::Binary(
        BinaryOp::Add,
        Box::new(Expr::FloatConst(f32b(1.5))),
        Box::new(Expr::FloatConst(f32b(2.25))),
    );
    let w = ConstBaseVal::Float(ConstSVMVal::new_scalar(f32b(3.75)));
    assert!(base_eq(&expect_base(prop(&e)), &w));
}

#[test]
fn propagate_nan_equality_is_false() {
    let nan = f32b(f32::NAN);
    let e = Expr::Binary(
        BinaryOp::Equal,
        Box::new(Expr::FloatConst(nan)),
        Box::new(Expr::FloatConst(nan)),
    );
    assert!(base_eq(&expect_base(prop(&e)), &ConstBaseVal::new_bool(false)));
}

#[test]
fn propagate_integer_division_by_zero_is_an_error() {
    // an all-integer division by zero is refused outright instead
    // of falling through to the floating point overloads, which
    // would change the folded expression's type
    let e = Expr::Binary(
        BinaryOp::Div,
        Box::new(Expr::IntConst(1)),
        Box::new(Expr::IntConst(0)),
    );
    match prop(&e) {
        Err(ConstEvalError::IllegalBinaryOperand(BinaryOp::Div, _, _)) => {}
        other => panic!("expected an illegal operand error, got {:?}", other),
    }
}

#[test]
fn propagate_integer_modulo_by_zero_is_an_error() {
    // no overload of the modulo operator accepts a zero divisor
    let e = Expr::Binary(
        BinaryOp::Mod,
        Box::new(Expr::IntConst(1)),
        Box::new(Expr::IntConst(0)),
    );
    match prop(&e) {
        Err(ConstEvalError::IllegalBinaryOperand(BinaryOp::Mod, _, _)) => {}
        other => panic!("expected an illegal operand error, got {:?}", other),
    }
}

#[test]
fn propagate_assignment_needs_lvalue() {
    let e = Expr::Assignment(
        Box::new(Expr::IntConst(5)),
        glsl_const_eval::AssignmentOp::Add,
        Box::new(Expr::IntConst(1)),
    );
    match prop(&e) {
        Err(ConstEvalError::AssignmentExpectedLValue) => {}
        other => panic!("expected an l-value error, got {:?}", other),
    }
}

#[test]
fn propagate_comparison_and_shift() {
    let e = Expr::Binary(
        BinaryOp::LT,
        Box::new(Expr::IntConst(2)),
        Box::new(Expr::IntConst(5)),
    );
    assert!(base_eq(&expect_base(prop(&e)), &ConstBaseVal::new_bool(true)));
    let e = Expr::Binary(
        BinaryOp::LShift,
        Box::new(Expr::IntConst(1)),
        Box::new(Expr::IntConst(4)),
    );
    assert!(base_eq(&expect_base(prop(&e)), &ConstBaseVal::new_int(16)));
}

#[test]
fn propagate_scalar_constructor_conversion() {
    // int(2.75) truncates toward zero
    let e = Expr::FunCall(
        FunIdentifier::Identifier("int".to_string()),
        vec![Expr::FloatConst(f32b(2.75))],
    );
    assert!(base_eq(&expect_base(prop(&e)), &ConstBaseVal::new_int(2)));
    // float(true) is 1.0
    let e = Expr::FunCall(
        FunIdentifier::Identifier("float".to_string()),
        vec![Expr::BoolConst(true)],
    );
    let w = ConstBaseVal::Float(ConstSVMVal::new_scalar(f32b(1.0)));
    assert!(base_eq(&expect_base(prop(&e)), &w));
}

#[test]
fn propagate_mat2_from_scalar_is_diagonal() {
    let e = Expr::FunCall(
        FunIdentifier::Identifier("mat2".to_string()),
        vec![Expr::FloatConst(f32b(3.0))],
    );
    let w = ConstBaseVal::Float(ConstSVMVal {
        shape: BaseTypeShape::Mat2,
        elems: vec![f32b(3.0), f32b(0.0), f32b(0.0), f32b(3.0)],
    });
    assert!(base_eq(&expect_base(prop(&e)), &w));
}

#[test]
fn scoped_lookup_shadows_and_pops() {
    let mut scopes = ScopedConstLookup::new();
    scopes.set_value(
        &"a".to_string(),
        ConstVal::Base(ConstBaseVal::new_int(1)),
    );
    scopes.push_scope();
    scopes.set_value(
        &"a".to_string(),
        ConstVal::Base(ConstBaseVal::new_int(2)),
    );
    match scopes.lookup_value(&"a".to_string()) {
        Some(ConstVal::Base(b)) => assert!(base_eq(b, &ConstBaseVal::new_int(2))),
        other => panic!("expected the inner binding, got {:?}", other),
    }
    scopes.pop_scope();
    match scopes.lookup_value(&"a".to_string()) {
        Some(ConstVal::Base(b)) => assert!(base_eq(b, &ConstBaseVal::new_int(1))),
        other => panic!("expected the outer binding, got {:?}", other),
    }
    assert!(scopes.lookup_value(&"b".to_string()).is_none());
}

#[test]
fn propagate_variable_binding_used() {
    let mut scopes = ConstBindings::new();
    scopes.set_value(
        &"x".to_string(),
        ConstVal::Base(ConstBaseVal::new_int(20)),
    );
    let ops = builtin_operators();
    let fns = builtin_functions();
    let e = Expr::Binary(
        BinaryOp::Add,
        Box::new(Expr::Variable("x".to_string())),
        Box::new(Expr::IntConst(1)),
    );
    let r = const_propagate_expr(&e, &scopes, &fns, &ops);
    assert!(base_eq(&expect_base(r), &ConstBaseVal::new_int(21)));
}

#[test]
fn equality_is_symmetric_between_int_and_uint() {
    let a = Expr::IntConst(7);
    let b = Expr::UIntConst(7);
    let e1 = Expr::Binary(BinaryOp::Equal, Box::new(a.clone_for_test()), Box::new(b.clone_for_test()));
    let e2 = Expr::Binary(BinaryOp::Equal, Box::new(b), Box::new(a));
    let r1 = expect_base(prop(&e1));
    let r2 = expect_base(prop(&e2));
    assert!(base_eq(&r1, &r2));
    assert!(base_eq(&r1, &ConstBaseVal::new_bool(true)));
}

trait CloneForTest {
    fn clone_for_test(&self) -> Expr;
}

impl CloneForTest for Expr {
    fn clone_for_test(&self) -> Expr {
        glsl_const_eval::clone_expr(self)
    }
}
