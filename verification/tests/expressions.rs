use typechecker::checked::{
    CheckedBlock, CheckedExpression, CheckedFunction, CheckedParameter, CheckedStruct,
    CheckedVarDecl, CheckedVariable,
};
use typechecker::constants::NumericConstant;
use typechecker::error::{JaktError, Span};
use typechecker::expression::{
    resolve_call, try_promote_constant_expr_to_type, typecheck_binary_operation, typecheck_call,
    typecheck_expression, typecheck_method_call, typecheck_unary_operation,
};
use typechecker::project::Project;
use typechecker::syntax::{
    BinaryOperator, Call, DefinitionLinkage, DefinitionType, Expression, FunctionLinkage,
    UnaryOperator, UncheckedType,
};
use typechecker::typename::typecheck_typename;
use typechecker::types::{SafetyMode, Type};

fn at(n: usize) -> Span {
    Span::new(1, n, n + 1)
}

fn num(value: i64, n: usize) -> Expression {
    Expression::NumericConstant(NumericConstant::I64(value), at(n))
}

fn var(name: &str, n: usize) -> Expression {
    Expression::Var(name.to_string(), at(n))
}

fn named(name: &str) -> UncheckedType {
    UncheckedType::Name(name.to_string(), at(900))
}

fn checked_var(name: &str, ty: Type, mutable: bool) -> CheckedVariable {
    CheckedVariable { name: name.to_string(), ty, mutable }
}

fn param(name: &str, ty: Type, requires_label: bool) -> CheckedParameter {
    CheckedParameter { requires_label, variable: checked_var(name, ty, false) }
}

fn message_of(error: &Option<JaktError>) -> String {
    error.as_ref().map(|e| e.message()).unwrap_or_default()
}

fn span_of(error: &Option<JaktError>) -> Span {
    error.as_ref().unwrap().span()
}

fn plain_call(name: &str, args: Vec<(String, Expression)>) -> Call {
    Call { namespace: vec![], name: name.to_string(), args }
}

/// A project with variables of several types in the top-level scope, a
/// record `Point { x: i32, y: i32 }` with a method `scale(this, factor: i32)
/// -> i32`, and functions `add(anon a: i32, b: i32) -> i32` and `origin() ->
/// Point`.
fn sample_project() -> Project {
    let mut project = Project::new();
    let point_scope = project.create_scope(0);
    project.structs.push(CheckedStruct {
        name: "Point".to_string(),
        fields: vec![
            CheckedVarDecl { name: "x".to_string(), ty: Type::I32, mutable: false, span: at(1) },
            CheckedVarDecl { name: "y".to_string(), ty: Type::I32, mutable: false, span: at(2) },
        ],
        scope_id: point_scope,
        definition_linkage: DefinitionLinkage::Internal,
        definition_type: DefinitionType::Struct,
    });
    project.add_struct_to_scope(0, "Point".to_string(), 0, at(3)).unwrap();
    project.funs.push(CheckedFunction {
        name: "scale".to_string(),
        return_type: Type::I32,
        params: vec![param("this", Type::Struct(0), false), param("factor", Type::I32, true)],
        block: CheckedBlock::new(),
        linkage: FunctionLinkage::Internal,
    });
    project.add_function_to_scope(point_scope, "scale".to_string(), 0, at(4)).unwrap();
    project.funs.push(CheckedFunction {
        name: "add".to_string(),
        return_type: Type::I32,
        params: vec![param("a", Type::I32, false), param("b", Type::I32, true)],
        block: CheckedBlock::new(),
        linkage: FunctionLinkage::Internal,
    });
    project.add_function_to_scope(0, "add".to_string(), 1, at(5)).unwrap();
    project.funs.push(CheckedFunction {
        name: "origin".to_string(),
        return_type: Type::Struct(0),
        params: vec![],
        block: CheckedBlock::new(),
        linkage: FunctionLinkage::Internal,
    });
    project.add_function_to_scope(0, "origin".to_string(), 2, at(6)).unwrap();
    for (name, ty, mutable) in [
        ("count", Type::I32, true),
        ("fixed", Type::I32, false),
        ("flag", Type::Bool, true),
        ("text", Type::String, false),
        ("numbers", Type::Vector(Box::new(Type::I32)), true),
        ("pair", Type::Tuple(vec![Type::I32, Type::Bool]), true),
        ("maybe", Type::Optional(Box::new(Type::I32)), false),
        ("pointer", Type::RawPtr(Box::new(Type::I32)), false),
        ("point", Type::Struct(0), true),
        ("frozen", Type::Struct(0), false),
        ("byte", Type::U8, true),
        ("b", Type::I32, false),
    ] {
        project.add_var_to_scope(0, checked_var(name, ty, mutable), at(7)).unwrap();
    }
    project
}

fn check(expr: &Expression) -> (CheckedExpression, Option<JaktError>) {
    typecheck_expression(expr, 0, &sample_project(), SafetyMode::Safe)
}

#[test]
fn literals_have_their_own_types() {
    let (checked, error) = check(&Expression::Boolean(true, at(0)));
    assert!(matches!(checked, CheckedExpression::Boolean(true)));
    assert_eq!(checked.ty(), Type::Bool);
    assert!(error.is_none());

    let (checked, error) = check(&Expression::QuotedString("hi".to_string(), at(0)));
    assert!(matches!(&checked, CheckedExpression::QuotedString(s) if s == "hi"));
    assert_eq!(checked.ty(), Type::String);
    assert!(error.is_none());

    let (checked, error) = check(&Expression::CharacterLiteral('c', at(0)));
    assert!(matches!(checked, CheckedExpression::CharacterConstant('c')));
    assert_eq!(checked.ty(), Type::CChar);
    assert!(error.is_none());

    let (checked, error) =
        check(&Expression::NumericConstant(NumericConstant::U16(9), at(0)));
    assert!(matches!(
        checked,
        CheckedExpression::NumericConstant(NumericConstant::U16(9), Type::U16)
    ));
    assert!(error.is_none());
}

#[test]
fn variable_takes_the_type_it_was_declared_with() {
    let (checked, error) = check(&var("numbers", 3));
    assert!(error.is_none());
    assert_eq!(checked.ty(), Type::Vector(Box::new(Type::I32)));
    assert!(checked.is_mutable());
    match checked {
        CheckedExpression::Var(v) => assert_eq!(v.name, "numbers"),
        other => panic!("not a variable: {:?}", other),
    }
}

#[test]
fn unknown_variable_is_reported_and_typed_unknown() {
    let (checked, error) = check(&var("nowhere", 3));
    assert_eq!(message_of(&error), "variable not found");
    assert_eq!(span_of(&error), at(3));
    assert_eq!(checked.ty(), Type::Unknown);
    assert!(!checked.is_mutable());
    assert!(matches!(&checked, CheckedExpression::Var(v) if v.name == "nowhere"));
}

#[test]
fn tuple_has_the_types_of_its_members() {
    let (checked, error) = check(&Expression::Tuple(
        vec![var("count", 1), var("flag", 2), var("text", 3)],
        at(0),
    ));
    assert!(error.is_none());
    assert_eq!(checked.ty(), Type::Tuple(vec![Type::I32, Type::Bool, Type::String]));
    assert!(matches!(&checked, CheckedExpression::Tuple(items, _) if items.len() == 3));

    let (checked, error) = check(&Expression::Tuple(vec![], at(0)));
    assert!(error.is_none());
    assert_eq!(checked.ty(), Type::Tuple(vec![]));
}

#[test]
fn tuple_reports_the_first_error_among_its_members() {
    let (checked, error) = check(&Expression::Tuple(
        vec![var("count", 1), var("gone", 2), var("missing", 3)],
        at(0),
    ));
    assert_eq!(message_of(&error), "variable not found");
    assert_eq!(span_of(&error), at(2));
    assert_eq!(checked.ty(), Type::Tuple(vec![Type::I32, Type::Unknown, Type::Unknown]));
}

#[test]
fn vector_takes_the_type_of_its_first_element() {
    let (checked, error) = check(&Expression::Vector(
        vec![var("count", 1), var("fixed", 2)],
        None,
        at(0),
    ));
    assert!(error.is_none());
    assert_eq!(checked.ty(), Type::Vector(Box::new(Type::I32)));
    assert!(matches!(&checked, CheckedExpression::Vector(items, None, _) if items.len() == 2));
}

#[test]
fn empty_vector_has_unknown_element_type() {
    let (checked, error) = check(&Expression::Vector(vec![], None, at(0)));
    assert!(error.is_none());
    assert_eq!(checked.ty(), Type::Vector(Box::new(Type::Unknown)));
}

#[test]
fn vector_element_of_another_type_is_reported_at_the_element() {
    let (checked, error) = check(&Expression::Vector(
        vec![var("count", 1), var("flag", 2), var("text", 3)],
        None,
        at(0),
    ));
    assert_eq!(message_of(&error), "does not match type of previous values in vector");
    assert_eq!(span_of(&error), at(2));
    assert_eq!(checked.ty(), Type::Vector(Box::new(Type::I32)));
}

#[test]
fn vector_fill_size_is_checked_first() {
    let (checked, error) = check(&Expression::Vector(
        vec![var("count", 1)],
        Some(Box::new(var("byte", 2))),
        at(0),
    ));
    assert!(error.is_none());
    assert!(matches!(&checked, CheckedExpression::Vector(_, Some(size), _) if size.ty() == Type::U8));

    let (_, error) = check(&Expression::Vector(
        vec![var("gone", 1)],
        Some(Box::new(var("lost", 2))),
        at(0),
    ));
    assert_eq!(span_of(&error), at(2));
}

#[test]
fn indexing_a_vector_by_an_integer_gives_the_element_type() {
    let (checked, error) = check(&Expression::IndexedExpression(
        Box::new(var("numbers", 1)),
        Box::new(var("byte", 2)),
        at(0),
    ));
    assert!(error.is_none());
    assert_eq!(checked.ty(), Type::I32);
    assert!(checked.is_mutable());
}

#[test]
fn index_that_is_not_an_integer_is_reported_at_the_index() {
    let (checked, error) = check(&Expression::IndexedExpression(
        Box::new(var("numbers", 1)),
        Box::new(var("flag", 2)),
        at(0),
    ));
    assert_eq!(message_of(&error), "index is not an integer");
    assert_eq!(span_of(&error), at(2));
    assert_eq!(checked.ty(), Type::Unknown);
}

#[test]
fn indexing_what_is_not_a_vector_is_reported_at_the_base() {
    let (checked, error) = check(&Expression::IndexedExpression(
        Box::new(var("count", 1)),
        Box::new(var("byte", 2)),
        at(0),
    ));
    assert_eq!(message_of(&error), "index used on value that can't be indexed");
    assert_eq!(span_of(&error), at(1));
    assert_eq!(checked.ty(), Type::Unknown);
}

#[test]
fn tuple_member_has_the_type_at_its_index() {
    let (checked, error) =
        check(&Expression::IndexedTuple(Box::new(var("pair", 1)), 1, at(0)));
    assert!(error.is_none());
    assert_eq!(checked.ty(), Type::Bool);
    assert!(!checked.is_mutable());
    assert!(matches!(checked, CheckedExpression::IndexedTuple(_, 1, _)));
}

#[test]
fn tuple_index_past_the_end_is_reported() {
    let (checked, error) =
        check(&Expression::IndexedTuple(Box::new(var("pair", 1)), 2, at(8)));
    assert_eq!(message_of(&error), "tuple index past the end of the tuple");
    assert_eq!(span_of(&error), at(8));
    assert_eq!(checked.ty(), Type::Unknown);
}

#[test]
fn tuple_index_on_what_is_not_a_tuple_is_reported_at_the_base() {
    let (checked, error) =
        check(&Expression::IndexedTuple(Box::new(var("count", 1)), 0, at(8)));
    assert_eq!(message_of(&error), "tuple index used non-tuple value");
    assert_eq!(span_of(&error), at(1));
    assert_eq!(checked.ty(), Type::Unknown);
}

#[test]
fn field_has_its_declared_type() {
    let (checked, error) =
        check(&Expression::IndexedStruct(Box::new(var("point", 1)), "y".to_string(), at(0)));
    assert!(error.is_none());
    assert_eq!(checked.ty(), Type::I32);
    assert!(checked.is_mutable());
    assert!(matches!(&checked, CheckedExpression::IndexedStruct(_, name, _) if name == "y"));
}

#[test]
fn unknown_field_is_reported_with_the_record_name() {
    let (checked, error) =
        check(&Expression::IndexedStruct(Box::new(var("point", 1)), "z".to_string(), at(8)));
    assert_eq!(message_of(&error), "unknown member of struct: Point.z");
    assert_eq!(span_of(&error), at(8));
    assert_eq!(checked.ty(), Type::Unknown);
}

#[test]
fn field_of_what_is_not_a_record_is_reported() {
    let (checked, error) =
        check(&Expression::IndexedStruct(Box::new(var("count", 1)), "x".to_string(), at(8)));
    assert_eq!(message_of(&error), "member access of non-struct value");
    assert_eq!(span_of(&error), at(8));
    assert_eq!(checked.ty(), Type::Unknown);
}

#[test]
fn field_access_keeps_the_error_of_its_base() {
    let base = Expression::Call(plain_call("origin", vec![(String::new(), num(1, 4))]), at(3));
    let (checked, error) =
        check(&Expression::IndexedStruct(Box::new(base), "x".to_string(), at(8)));
    assert_eq!(checked.ty(), Type::I32);
    assert_eq!(message_of(&error), "wrong number of arguments");
}

#[test]
fn mutability_follows_the_base_through_fields_and_elements() {
    let field_of = |name: &str| {
        Expression::IndexedStruct(Box::new(var(name, 1)), "x".to_string(), at(0))
    };
    assert!(check(&field_of("point")).0.is_mutable());
    assert!(!check(&field_of("frozen")).0.is_mutable());
    let nested = Expression::IndexedStruct(
        Box::new(Expression::IndexedExpression(
            Box::new(var("numbers", 1)),
            Box::new(var("byte", 2)),
            at(0),
        )),
        "x".to_string(),
        at(0),
    );
    assert!(check(&nested).0.is_mutable());
    assert!(check(&var("count", 0)).0.is_mutable());
    assert!(!check(&var("fixed", 0)).0.is_mutable());
    assert!(!check(&Expression::OptionalSome(Box::new(var("count", 0)), at(0))).0.is_mutable());
    assert!(!check(&Expression::ForcedUnwrap(Box::new(var("maybe", 0)), at(0))).0.is_mutable());
    assert!(!check(&Expression::IndexedTuple(Box::new(var("pair", 0)), 0, at(0))).0.is_mutable());
    assert!(!check(&num(1, 0)).0.is_mutable());
}

#[test]
fn none_is_unknown_and_raises_nothing() {
    let (checked, error) = check(&Expression::OptionalNone(at(0)));
    assert!(error.is_none());
    assert!(matches!(checked, CheckedExpression::OptionalNone(Type::Unknown)));
}

#[test]
fn some_wraps_the_type_of_its_value() {
    let (checked, error) = check(&Expression::OptionalSome(Box::new(var("count", 1)), at(0)));
    assert!(error.is_none());
    assert_eq!(checked.ty(), Type::Optional(Box::new(Type::I32)));
}

#[test]
fn forced_unwrap_gives_the_payload_type() {
    let (checked, error) = check(&Expression::ForcedUnwrap(Box::new(var("maybe", 1)), at(0)));
    assert!(error.is_none());
    assert_eq!(checked.ty(), Type::I32);
}

#[test]
fn forced_unwrap_of_what_is_not_optional_is_reported_at_the_operand() {
    let (checked, error) = check(&Expression::ForcedUnwrap(Box::new(var("count", 1)), at(0)));
    assert_eq!(message_of(&error), "Forced unwrap only works on Optional");
    assert_eq!(span_of(&error), at(1));
    assert_eq!(checked.ty(), Type::Unknown);
}

#[test]
fn garbage_and_stray_operators_are_reported() {
    let (checked, error) = check(&Expression::Garbage(at(4)));
    assert!(matches!(checked, CheckedExpression::Garbage));
    assert_eq!(message_of(&error), "garbage in expression");
    assert_eq!(span_of(&error), at(4));
    let (checked, error) = check(&Expression::Operator(BinaryOperator::Add, at(5)));
    assert!(matches!(checked, CheckedExpression::Garbage));
    assert_eq!(message_of(&error), "garbage in expression");
    assert_eq!(span_of(&error), at(5));
    assert_eq!(checked.ty(), Type::Unknown);
}

#[test]
fn binary_operation_takes_the_type_of_its_left_side() {
    let (checked, error) = check(&Expression::BinaryOp(
        Box::new(var("byte", 1)),
        BinaryOperator::Add,
        Box::new(var("count", 2)),
        at(0),
    ));
    assert!(error.is_none());
    assert_eq!(checked.ty(), Type::U8);
}

#[test]
fn logical_operators_give_bool() {
    for op in [BinaryOperator::LogicalAnd, BinaryOperator::LogicalOr] {
        let (checked, error) = check(&Expression::BinaryOp(
            Box::new(var("count", 1)),
            op,
            Box::new(var("text", 2)),
            at(0),
        ));
        assert!(error.is_none());
        assert_eq!(checked.ty(), Type::Bool);
    }
}

#[test]
fn right_side_literal_is_narrowed_to_the_left_side() {
    let (checked, error) = check(&Expression::BinaryOp(
        Box::new(var("byte", 1)),
        BinaryOperator::Assign,
        Box::new(num(200, 2)),
        at(0),
    ));
    assert!(error.is_none());
    match checked {
        CheckedExpression::BinaryOp(_, BinaryOperator::Assign, rhs, ty) => {
            assert_eq!(ty, Type::U8);
            assert!(matches!(
                *rhs,
                CheckedExpression::NumericConstant(NumericConstant::U8(200), Type::U8)
            ));
        }
        other => panic!("not a binary operation: {:?}", other),
    }
}

#[test]
fn right_side_literal_that_does_not_fit_is_reported_at_the_operation() {
    let (_, error) = check(&Expression::BinaryOp(
        Box::new(var("byte", 1)),
        BinaryOperator::Add,
        Box::new(num(256, 2)),
        at(7),
    ));
    assert_eq!(message_of(&error), "Integer promotion failed");
    assert_eq!(span_of(&error), at(7));
}

#[test]
fn assignment_between_different_types_is_reported_with_both_types() {
    let (checked, error) = check(&Expression::BinaryOp(
        Box::new(var("count", 1)),
        BinaryOperator::Assign,
        Box::new(var("numbers", 2)),
        at(7),
    ));
    assert_eq!(
        message_of(&error),
        "assignment between incompatible types (I32 and Vector(I32))"
    );
    assert_eq!(span_of(&error), at(7));
    assert_eq!(checked.ty(), Type::I32);
}

#[test]
fn assignment_to_an_immutable_variable_is_reported() {
    let (checked, error) = check(&Expression::BinaryOp(
        Box::new(var("fixed", 1)),
        BinaryOperator::Assign,
        Box::new(num(2, 2)),
        at(7),
    ));
    assert_eq!(message_of(&error), "assignment to immutable variable");
    assert_eq!(span_of(&error), at(7));
    assert_eq!(checked.ty(), Type::I32);
}

#[test]
fn every_assignment_operator_asks_for_a_mutable_left_side() {
    for op in [
        BinaryOperator::Assign,
        BinaryOperator::AddAssign,
        BinaryOperator::SubtractAssign,
        BinaryOperator::MultiplyAssign,
        BinaryOperator::DivideAssign,
        BinaryOperator::BitwiseAndAssign,
        BinaryOperator::BitwiseOrAssign,
        BinaryOperator::BitwiseXorAssign,
        BinaryOperator::BitwiseLeftShiftAssign,
        BinaryOperator::BitwiseRightShiftAssign,
    ] {
        let fixed = CheckedExpression::Var(checked_var("fixed", Type::I32, false));
        let count = CheckedExpression::Var(checked_var("count", Type::I32, true));
        let flag = CheckedExpression::Var(checked_var("flag", Type::Bool, true));
        let (ty, error) = typecheck_binary_operation(&fixed, &op, &count, at(1));
        assert_eq!(ty, Type::I32);
        assert_eq!(message_of(&error), "assignment to immutable variable");
        let (ty, error) = typecheck_binary_operation(&count, &op, &fixed, at(1));
        assert_eq!(ty, Type::I32);
        assert!(error.is_none());
        let (ty, error) = typecheck_binary_operation(&count, &op, &flag, at(1));
        assert_eq!(ty, Type::I32);
        assert_eq!(message_of(&error), "assignment between incompatible types (I32 and Bool)");
    }
}

#[test]
fn other_operators_ask_for_nothing() {
    for op in [
        BinaryOperator::Add,
        BinaryOperator::Subtract,
        BinaryOperator::Multiply,
        BinaryOperator::Divide,
        BinaryOperator::Modulo,
        BinaryOperator::Equal,
        BinaryOperator::NotEqual,
        BinaryOperator::LessThan,
        BinaryOperator::GreaterThan,
        BinaryOperator::LessThanOrEqual,
        BinaryOperator::GreaterThanOrEqual,
        BinaryOperator::BitwiseAnd,
        BinaryOperator::BitwiseXor,
        BinaryOperator::BitwiseOr,
        BinaryOperator::BitwiseLeftShift,
        BinaryOperator::BitwiseRightShift,
    ] {
        let fixed = CheckedExpression::Var(checked_var("fixed", Type::String, false));
        let flag = CheckedExpression::Var(checked_var("flag", Type::Bool, true));
        let (ty, error) = typecheck_binary_operation(&fixed, &op, &flag, at(1));
        assert_eq!(ty, Type::String);
        assert!(error.is_none());
    }
}

#[test]
fn promotion_rewrites_a_literal_in_place() {
    let mut literal = CheckedExpression::NumericConstant(NumericConstant::I64(5), Type::I64);
    let error = try_promote_constant_expr_to_type(&Type::U16, &mut literal, &at(1));
    assert!(error.is_none());
    assert!(matches!(
        literal,
        CheckedExpression::NumericConstant(NumericConstant::U16(5), Type::U16)
    ));
}

#[test]
fn promotion_that_fails_leaves_the_literal_alone() {
    let mut literal = CheckedExpression::NumericConstant(NumericConstant::I64(300), Type::I64);
    let error = try_promote_constant_expr_to_type(&Type::U8, &mut literal, &at(6));
    assert_eq!(message_of(&error), "Integer promotion failed");
    assert_eq!(span_of(&error), at(6));
    assert!(matches!(
        literal,
        CheckedExpression::NumericConstant(NumericConstant::I64(300), Type::I64)
    ));
}

#[test]
fn promotion_ignores_other_targets_and_other_expressions() {
    let mut literal = CheckedExpression::NumericConstant(NumericConstant::I64(300), Type::I64);
    assert!(try_promote_constant_expr_to_type(&Type::Bool, &mut literal, &at(6)).is_none());
    assert!(matches!(
        literal,
        CheckedExpression::NumericConstant(NumericConstant::I64(300), Type::I64)
    ));
    let mut flag = CheckedExpression::Boolean(true);
    assert!(try_promote_constant_expr_to_type(&Type::U8, &mut flag, &at(6)).is_none());
    assert!(matches!(flag, CheckedExpression::Boolean(true)));
}

fn unary(operand: CheckedExpression, op: UnaryOperator, mode: SafetyMode) -> (CheckedExpression, Option<JaktError>) {
    typecheck_unary_operation(operand, op, at(5), 0, &sample_project(), mode)
}

fn checked_named(name: &str, ty: Type, mutable: bool) -> CheckedExpression {
    CheckedExpression::Var(checked_var(name, ty, mutable))
}

#[test]
fn dereference_outside_unsafe_is_reported_but_typed() {
    let pointer = checked_named("pointer", Type::RawPtr(Box::new(Type::I32)), false);
    let (checked, error) = unary(pointer, UnaryOperator::Dereference, SafetyMode::Safe);
    assert_eq!(message_of(&error), "dereference of raw pointer outside of unsafe block");
    assert_eq!(span_of(&error), at(5));
    assert_eq!(checked.ty(), Type::I32);
    assert!(matches!(checked, CheckedExpression::UnaryOp(_, UnaryOperator::Dereference, _)));
}

#[test]
fn dereference_inside_unsafe_is_accepted() {
    let pointer = checked_named("pointer", Type::RawPtr(Box::new(Type::I32)), false);
    let (checked, error) = unary(pointer, UnaryOperator::Dereference, SafetyMode::Unsafe);
    assert!(error.is_none());
    assert_eq!(checked.ty(), Type::I32);
}

#[test]
fn dereference_of_what_is_not_a_pointer_is_reported() {
    for mode in [SafetyMode::Safe, SafetyMode::Unsafe] {
        let (checked, error) =
            unary(checked_named("count", Type::I32, true), UnaryOperator::Dereference, mode);
        assert_eq!(message_of(&error), "dereference of a non-pointer value");
        assert_eq!(checked.ty(), Type::Unknown);
    }
}

#[test]
fn raw_address_wraps_the_operand_type() {
    let (checked, error) =
        unary(checked_named("count", Type::I32, true), UnaryOperator::RawAddress, SafetyMode::Safe);
    assert!(error.is_none());
    assert_eq!(checked.ty(), Type::RawPtr(Box::new(Type::I32)));
}

#[test]
fn not_operators_keep_the_operand_type() {
    let (checked, error) =
        unary(checked_named("text", Type::String, false), UnaryOperator::LogicalNot, SafetyMode::Safe);
    assert!(error.is_none());
    assert_eq!(checked.ty(), Type::String);
    let (checked, error) =
        unary(checked_named("flag", Type::Bool, false), UnaryOperator::BitwiseNot, SafetyMode::Safe);
    assert!(error.is_none());
    assert_eq!(checked.ty(), Type::Bool);
}

#[test]
fn negate_asks_for_a_number() {
    let (checked, error) =
        unary(checked_named("x", Type::F64, false), UnaryOperator::Negate, SafetyMode::Safe);
    assert!(error.is_none());
    assert_eq!(checked.ty(), Type::F64);
    let (checked, error) =
        unary(checked_named("x", Type::Bool, false), UnaryOperator::Negate, SafetyMode::Safe);
    assert_eq!(message_of(&error), "negate on non-numeric value");
    assert_eq!(span_of(&error), at(5));
    assert_eq!(checked.ty(), Type::Bool);
}

#[test]
fn increment_and_decrement_ask_for_a_mutable_number() {
    for op in [
        UnaryOperator::PreIncrement,
        UnaryOperator::PostIncrement,
        UnaryOperator::PreDecrement,
        UnaryOperator::PostDecrement,
    ] {
        let (checked, error) =
            unary(checked_named("count", Type::I32, true), op.clone(), SafetyMode::Safe);
        assert!(error.is_none());
        assert_eq!(checked.ty(), Type::I32);
        let (checked, error) =
            unary(checked_named("fixed", Type::I32, false), op.clone(), SafetyMode::Safe);
        assert_eq!(message_of(&error), "increment/decrement of immutable variable");
        assert_eq!(checked.ty(), Type::I32);
        let (checked, error) =
            unary(checked_named("flag", Type::Bool, true), op.clone(), SafetyMode::Safe);
        assert_eq!(message_of(&error), "unary operation on non-numeric value");
        assert_eq!(checked.ty(), Type::Bool);
    }
}

#[test]
fn cast_takes_the_type_it_names() {
    let (checked, error) = unary(
        checked_named("count", Type::I32, true),
        UnaryOperator::TypeCast(named("u64")),
        SafetyMode::Safe,
    );
    assert!(error.is_none());
    assert_eq!(checked.ty(), Type::U64);
    let (checked, error) = unary(
        checked_named("count", Type::I32, true),
        UnaryOperator::TypeCast(named("Nothing")),
        SafetyMode::Safe,
    );
    assert_eq!(message_of(&error), "unknown type");
    assert_eq!(span_of(&error), at(900));
    assert_eq!(checked.ty(), Type::Unknown);
}

#[test]
fn unary_expression_reports_the_operand_error_first() {
    let (checked, error) = check(&Expression::UnaryOp(
        Box::new(var("nowhere", 1)),
        UnaryOperator::Negate,
        at(2),
    ));
    assert_eq!(message_of(&error), "variable not found");
    assert_eq!(checked.ty(), Type::Unknown);
}

#[test]
fn built_in_names_resolve_to_their_types() {
    let project = sample_project();
    for (name, ty) in [
        ("i8", Type::I8),
        ("i16", Type::I16),
        ("i32", Type::I32),
        ("i64", Type::I64),
        ("u8", Type::U8),
        ("u16", Type::U16),
        ("u32", Type::U32),
        ("u64", Type::U64),
        ("f32", Type::F32),
        ("f64", Type::F64),
        ("c_char", Type::CChar),
        ("c_int", Type::CInt),
        ("String", Type::String),
        ("bool", Type::Bool),
        ("void", Type::Void),
    ] {
        for scope_id in 0..project.scopes.len() {
            let (resolved, error) = typecheck_typename(&named(name), scope_id, &project);
            assert_eq!(resolved, ty);
            assert!(error.is_none());
        }
        let (resolved, error) = typecheck_typename(&named(name), 0, &Project::new());
        assert_eq!(resolved, ty);
        assert!(error.is_none());
    }
}

#[test]
fn record_names_resolve_by_scope_walk() {
    let project = sample_project();
    let (resolved, error) = typecheck_typename(&named("Point"), 1, &project);
    assert_eq!(resolved, Type::Struct(0));
    assert!(error.is_none());
    let (resolved, error) = typecheck_typename(&named("point"), 1, &project);
    assert_eq!(resolved, Type::Unknown);
    assert_eq!(message_of(&error), "unknown type");
    assert_eq!(span_of(&error), at(900));
}

#[test]
fn written_types_resolve_structurally() {
    let project = sample_project();
    let written = UncheckedType::Vector(
        Box::new(UncheckedType::Optional(
            Box::new(UncheckedType::RawPtr(Box::new(named("Point")), at(1))),
            at(2),
        )),
        at(3),
    );
    let (resolved, error) = typecheck_typename(&written, 0, &project);
    assert!(error.is_none());
    assert_eq!(
        resolved,
        Type::Vector(Box::new(Type::Optional(Box::new(Type::RawPtr(Box::new(Type::Struct(0)))))))
    );
    let (resolved, error) = typecheck_typename(&UncheckedType::Empty, 0, &project);
    assert_eq!(resolved, Type::Unknown);
    assert!(error.is_none());
    let (resolved, error) =
        typecheck_typename(&UncheckedType::Optional(Box::new(named("Gone")), at(1)), 0, &project);
    assert_eq!(resolved, Type::Optional(Box::new(Type::Unknown)));
    assert_eq!(message_of(&error), "unknown type");
}

#[test]
fn call_takes_the_return_type_of_its_callee() {
    let call = plain_call(
        "add",
        vec![(String::new(), var("count", 1)), ("b".to_string(), var("fixed", 2))],
    );
    let (checked, error) = typecheck_call(&call, 0, &at(0), &sample_project(), SafetyMode::Safe);
    assert!(error.is_none());
    assert_eq!(checked.ty, Type::I32);
    assert_eq!(checked.name, "add");
    assert!(checked.namespace.is_empty());
    assert_eq!(checked.args.len(), 2);
    assert_eq!(checked.args[0].0, "");
    assert_eq!(checked.args[1].0, "b");
    let (as_expression, error) = check(&Expression::Call(call, at(0)));
    assert!(error.is_none());
    assert_eq!(as_expression.ty(), Type::I32);
    assert!(matches!(as_expression, CheckedExpression::Call(_, Type::I32)));
}

#[test]
fn call_with_the_wrong_label_is_reported_at_the_argument() {
    let call = plain_call(
        "add",
        vec![(String::new(), var("count", 1)), ("c".to_string(), var("fixed", 2))],
    );
    let (checked, error) = typecheck_call(&call, 0, &at(0), &sample_project(), SafetyMode::Safe);
    assert_eq!(message_of(&error), "Wrong parameter name in argument label");
    assert_eq!(span_of(&error), at(2));
    assert_eq!(checked.args.len(), 2);
    assert_eq!(checked.ty, Type::I32);
}

#[test]
fn label_may_be_left_out_for_a_variable_named_like_the_parameter() {
    let call = plain_call(
        "add",
        vec![(String::new(), var("count", 1)), (String::new(), var("b", 2))],
    );
    let (_, error) = typecheck_call(&call, 0, &at(0), &sample_project(), SafetyMode::Safe);
    assert!(error.is_none());
}

#[test]
fn call_argument_literal_is_narrowed_to_the_parameter_type() {
    let call = plain_call(
        "add",
        vec![(String::new(), num(1, 1)), ("b".to_string(), num(2, 2))],
    );
    let (checked, error) = typecheck_call(&call, 0, &at(0), &sample_project(), SafetyMode::Safe);
    assert!(error.is_none());
    assert!(matches!(
        checked.args[0].1,
        CheckedExpression::NumericConstant(NumericConstant::I32(1), Type::I32)
    ));
    assert!(matches!(
        checked.args[1].1,
        CheckedExpression::NumericConstant(NumericConstant::I32(2), Type::I32)
    ));
}

#[test]
fn call_argument_of_another_type_is_reported() {
    let call = plain_call(
        "add",
        vec![(String::new(), var("flag", 1)), ("b".to_string(), var("fixed", 2))],
    );
    let (_, error) = typecheck_call(&call, 0, &at(0), &sample_project(), SafetyMode::Safe);
    assert_eq!(message_of(&error), "Parameter type mismatch");
    assert_eq!(span_of(&error), at(1));
}

#[test]
fn call_with_the_wrong_number_of_arguments_keeps_none() {
    let call = plain_call("add", vec![(String::new(), var("count", 1))]);
    let (checked, error) = typecheck_call(&call, 0, &at(9), &sample_project(), SafetyMode::Safe);
    assert_eq!(message_of(&error), "wrong number of arguments");
    assert_eq!(span_of(&error), at(9));
    assert!(checked.args.is_empty());
    assert_eq!(checked.ty, Type::I32);
}

#[test]
fn call_to_an_unknown_function_is_reported_with_its_name() {
    let call = plain_call("vanish", vec![(String::new(), var("count", 1))]);
    let (checked, error) = typecheck_call(&call, 0, &at(9), &sample_project(), SafetyMode::Safe);
    assert_eq!(message_of(&error), "call to unknown function: vanish");
    assert_eq!(span_of(&error), at(9));
    assert!(checked.args.is_empty());
    assert_eq!(checked.ty, Type::Unknown);
}

#[test]
fn printing_takes_any_arguments_and_gives_void() {
    for name in ["println", "eprintln"] {
        let call = plain_call(
            name,
            vec![
                (String::new(), var("text", 1)),
                ("anything".to_string(), var("point", 2)),
                (String::new(), var("numbers", 3)),
            ],
        );
        let (checked, error) =
            typecheck_call(&call, 0, &at(0), &sample_project(), SafetyMode::Safe);
        assert!(error.is_none());
        assert_eq!(checked.ty, Type::Void);
        assert_eq!(checked.args.len(), 3);
        assert_eq!(checked.args[1].0, "anything");
        let empty = plain_call(name, vec![]);
        let (checked, error) =
            typecheck_call(&empty, 0, &at(0), &sample_project(), SafetyMode::Safe);
        assert!(error.is_none());
        assert_eq!(checked.ty, Type::Void);
    }
}

#[test]
fn printing_reports_the_errors_of_its_arguments() {
    let call = plain_call("println", vec![(String::new(), var("nowhere", 4))]);
    let (_, error) = typecheck_call(&call, 0, &at(0), &sample_project(), SafetyMode::Safe);
    assert_eq!(message_of(&error), "variable not found");
    assert_eq!(span_of(&error), at(4));
}

#[test]
fn namespace_names_the_record_whose_scope_holds_the_callee() {
    let project = sample_project();
    let call = Call {
        namespace: vec!["Point".to_string()],
        name: "scale".to_string(),
        args: vec![],
    };
    let (callee, error) = resolve_call(&call, &at(0), 0, &project);
    assert!(error.is_none());
    assert_eq!(callee.unwrap().name, "scale");
    let (checked, _) = typecheck_call(&call, 0, &at(0), &project, SafetyMode::Safe);
    assert_eq!(checked.namespace, vec!["Point".to_string()]);
}

#[test]
fn unknown_namespace_is_reported_with_its_name() {
    let project = sample_project();
    let call = Call {
        namespace: vec!["Nowhere".to_string()],
        name: "scale".to_string(),
        args: vec![],
    };
    let (callee, error) = resolve_call(&call, &at(3), 0, &project);
    assert!(callee.is_none());
    assert_eq!(message_of(&error), "unknown namespace or class: Nowhere");
    assert_eq!(span_of(&error), at(3));
}

#[test]
fn missing_callee_in_a_known_namespace_raises_nothing() {
    let project = sample_project();
    let call = Call {
        namespace: vec!["Point".to_string()],
        name: "vanish".to_string(),
        args: vec![],
    };
    let (callee, error) = resolve_call(&call, &at(3), 0, &project);
    assert!(callee.is_none());
    assert!(error.is_none());
}

#[test]
fn resolve_call_finds_functions_by_scope_walk() {
    let project = sample_project();
    let (callee, error) = resolve_call(&plain_call("origin", vec![]), &at(3), 1, &project);
    assert!(error.is_none());
    assert_eq!(callee.unwrap().return_type, Type::Struct(0));
    let (callee, error) = resolve_call(&plain_call("vanish", vec![]), &at(3), 1, &project);
    assert!(callee.is_none());
    assert_eq!(message_of(&error), "call to unknown function: vanish");
}

#[test]
fn method_call_skips_the_receiver_parameter() {
    let call = plain_call("scale", vec![("factor".to_string(), num(3, 2))]);
    let (checked, error) =
        typecheck_method_call(&call, 0, &at(0), &sample_project(), 0, SafetyMode::Safe);
    assert!(error.is_none());
    assert_eq!(checked.ty, Type::I32);
    assert_eq!(checked.args.len(), 1);
    assert!(checked.namespace.is_empty());
    assert!(matches!(
        checked.args[0].1,
        CheckedExpression::NumericConstant(NumericConstant::I32(3), Type::I32)
    ));
    let expr = Expression::MethodCall(Box::new(var("point", 1)), call, at(0));
    let (checked, error) = check(&expr);
    assert!(error.is_none());
    assert_eq!(checked.ty(), Type::I32);
    assert!(matches!(checked, CheckedExpression::MethodCall(_, _, Type::I32)));
}

#[test]
fn method_call_holds_labels_to_the_parameter_after_the_receiver() {
    let call = plain_call("scale", vec![("wrong".to_string(), num(3, 2))]);
    let (_, error) =
        typecheck_method_call(&call, 0, &at(0), &sample_project(), 0, SafetyMode::Safe);
    assert_eq!(message_of(&error), "Wrong parameter name in argument label");
    assert_eq!(span_of(&error), at(2));
}

#[test]
fn method_call_with_the_wrong_number_of_arguments_is_reported() {
    let call = plain_call("scale", vec![]);
    let (checked, error) =
        typecheck_method_call(&call, 0, &at(6), &sample_project(), 0, SafetyMode::Safe);
    assert_eq!(message_of(&error), "wrong number of arguments");
    assert_eq!(span_of(&error), at(6));
    assert!(checked.args.is_empty());
}

#[test]
fn method_call_on_a_type_without_methods_is_reported_at_the_receiver() {
    let call = plain_call("scale", vec![]);
    for receiver in ["count", "flag", "pair", "maybe", "pointer"] {
        let expr = Expression::MethodCall(Box::new(var(receiver, 4)), plain_call("scale", vec![]), at(0));
        let (checked, error) = check(&expr);
        assert!(matches!(checked, CheckedExpression::Garbage));
        assert_eq!(message_of(&error), "no methods available on value");
        assert_eq!(span_of(&error), at(4));
    }
    let _ = call;
}

#[test]
fn string_and_vector_methods_need_their_records_in_the_top_level_scope() {
    for receiver in ["text", "numbers"] {
        let expr = Expression::MethodCall(Box::new(var(receiver, 4)), plain_call("len", vec![]), at(0));
        let (checked, error) = check(&expr);
        assert!(matches!(checked, CheckedExpression::Garbage));
        assert_eq!(message_of(&error), "no methods available on value");
    }
}

#[test]
fn string_and_vector_methods_come_from_the_seeded_records() {
    let mut project = sample_project();
    for (record, function_name, result) in
        [("String", "length", Type::U64), ("RefVector", "size", Type::U32)]
    {
        let scope_id = project.create_scope(0);
        let struct_id = project.structs.len();
        project.structs.push(CheckedStruct {
            name: record.to_string(),
            fields: vec![],
            scope_id,
            definition_linkage: DefinitionLinkage::External,
            definition_type: DefinitionType::Class,
        });
        project.add_struct_to_scope(0, record.to_string(), struct_id, at(1)).unwrap();
        let function_id = project.funs.len();
        project.funs.push(CheckedFunction {
            name: function_name.to_string(),
            return_type: result,
            params: vec![param("this", Type::Struct(struct_id), false)],
            block: CheckedBlock::new(),
            linkage: FunctionLinkage::External,
        });
        project.add_function_to_scope(scope_id, function_name.to_string(), function_id, at(2)).unwrap();
    }
    let on_text =
        Expression::MethodCall(Box::new(var("text", 4)), plain_call("length", vec![]), at(0));
    let (checked, error) = typecheck_expression(&on_text, 0, &project, SafetyMode::Safe);
    assert!(error.is_none());
    assert_eq!(checked.ty(), Type::U64);
    let on_vector =
        Expression::MethodCall(Box::new(var("numbers", 4)), plain_call("size", vec![]), at(0));
    let (checked, error) = typecheck_expression(&on_vector, 0, &project, SafetyMode::Safe);
    assert!(error.is_none());
    assert_eq!(checked.ty(), Type::U32);
}

#[test]
fn successful_check_of_a_complete_expression_has_a_known_type() {
    let expressions = vec![
        var("count", 1),
        Expression::Tuple(vec![var("count", 1), var("flag", 2)], at(0)),
        Expression::Vector(vec![var("count", 1)], None, at(0)),
        Expression::OptionalSome(Box::new(var("text", 1)), at(0)),
        Expression::ForcedUnwrap(Box::new(var("maybe", 1)), at(0)),
        Expression::IndexedStruct(Box::new(var("point", 1)), "x".to_string(), at(0)),
        Expression::Call(plain_call("origin", vec![]), at(0)),
        Expression::UnaryOp(Box::new(var("count", 1)), UnaryOperator::RawAddress, at(0)),
    ];
    for expr in &expressions {
        let (checked, error) = check(expr);
        assert!(error.is_none());
        assert_ne!(checked.ty(), Type::Unknown);
    }
}

#[test]
fn every_record_mentioned_by_a_checked_node_exists() {
    let project = sample_project();
    let expr = Expression::Tuple(
        vec![
            var("point", 1),
            Expression::Call(plain_call("origin", vec![]), at(2)),
            Expression::OptionalSome(Box::new(var("frozen", 3)), at(4)),
        ],
        at(0),
    );
    let (checked, error) = typecheck_expression(&expr, 0, &project, SafetyMode::Safe);
    assert!(error.is_none());
    match checked.ty() {
        Type::Tuple(members) => {
            assert_eq!(members.len(), 3);
            assert_eq!(members[0], Type::Struct(0));
            assert_eq!(members[1], Type::Struct(0));
            assert_eq!(members[2], Type::Optional(Box::new(Type::Struct(0))));
            assert!(0 < project.structs.len());
        }
        other => panic!("not a tuple: {:?}", other),
    }
}
