//! The expression checker.

use crate::checked::{
    argument_views, clone_strings, expression_views, expressions_in_range,
    lemma_argument_views_push, lemma_expression_views_push, lemma_type_in_range, string_views,
    views, CheckedCall, CheckedExpression, CheckedFunction, CheckedParameter, CheckedVarDecl,
    CheckedVariable,
};
use crate::error::{error_view, or_error, typecheck_error, JaktError, JaktErrorView, Span};
use crate::project::{
    lemma_found_function_exists, lemma_found_struct_exists, lemma_found_var_fully_known,
    lemma_found_var_in_range, lemma_position_is_first, position, Project,
};
use crate::rules::{
    all_complete, argument_rule, binary_expression, binary_operation, callee_params,
    cast_written_in_full, check_arguments, check_call, check_elements, check_expression,
    check_method_call, check_print_arguments, complete, complete_call, field_names,
    forced_unwrap, incompatible_types_message, indexed_expression, indexed_struct,
    indexed_tuple, method_home, promote_constant, resolve_callee, resolved_call, tuple_literal,
    types_of, unary_operation, unknown_member_message, vector_literal,
};
use crate::syntax::{BinaryOperator, Call, Expression, UnaryOperator};
use crate::text::str_eq;
use crate::typename::{
    lemma_resolved_type_fully_known, resolve_typename, typecheck_typename, written_in_full,
};
use crate::types::{FunctionId, SafetyMode, ScopeId, StructId, Type};
use vstd::prelude::*;
use vstd::string::*;

verus! {

/// A diagnostic whose message is `prefix` followed by `name`.
fn named_error(prefix: &str, name: &str, span: Span) -> (error: JaktError)
    ensures
        error@ == JaktErrorView::TypecheckError(prefix@ + name@, span),
{
    JaktError::TypecheckError(String::from_str(prefix).concat(name), span)
}

/// Narrows `checked_rhs` in place towards `lhs_type` where it is an integer
/// literal and `lhs_type` an integer type that holds its value.
pub fn try_promote_constant_expr_to_type(
    lhs_type: &Type,
    checked_rhs: &mut CheckedExpression,
    span: &Span,
) -> (error: Option<JaktError>)
    ensures
        final(checked_rhs)@ == promote_constant(lhs_type@, old(checked_rhs)@, *span).0,
        error_view(error) == promote_constant(lhs_type@, old(checked_rhs)@, *span).1,
{
    if !lhs_type.is_integer() {
        return None;
    }
    match checked_rhs.to_integer_constant() {
        Some(rhs_constant) => match rhs_constant.promote(lhs_type) {
            (Some(new_constant), new_ty) => {
                *checked_rhs = CheckedExpression::NumericConstant(new_constant, new_ty);
                None
            },
            _ => Some(typecheck_error("Integer promotion failed", *span)),
        },
        None => None,
    }
}

/// The type of a binary operation on two checked operands.
pub fn typecheck_binary_operation(
    lhs: &CheckedExpression,
    op: &BinaryOperator,
    rhs: &CheckedExpression,
    span: Span,
) -> (checked: (Type, Option<JaktError>))
    ensures
        checked.0@ == binary_operation(lhs@, *op, rhs@, span).0,
        error_view(checked.1) == binary_operation(lhs@, *op, rhs@, span).1,
{
    match op {
        BinaryOperator::LogicalAnd | BinaryOperator::LogicalOr => (Type::Bool, None),
        BinaryOperator::Assign
        | BinaryOperator::AddAssign
        | BinaryOperator::SubtractAssign
        | BinaryOperator::MultiplyAssign
        | BinaryOperator::DivideAssign
        | BinaryOperator::BitwiseAndAssign
        | BinaryOperator::BitwiseOrAssign
        | BinaryOperator::BitwiseXorAssign
        | BinaryOperator::BitwiseLeftShiftAssign
        | BinaryOperator::BitwiseRightShiftAssign => {
            let lhs_ty = lhs.ty();
            let rhs_ty = rhs.ty();
            if !lhs_ty.same_as(&rhs_ty) {
                let mut message = String::from_str("assignment between incompatible types (");
                lhs_ty.write_text(&mut message);
                message.append(" and ");
                rhs_ty.write_text(&mut message);
                message.append(")");
                assert(message@ == incompatible_types_message(lhs_ty@, rhs_ty@));
                return (lhs_ty, Some(JaktError::TypecheckError(message, span)));
            }
            if !lhs.is_mutable() {
                return (
                    lhs_ty,
                    Some(typecheck_error("assignment to immutable variable", span)),
                );
            }
            (lhs_ty, None)
        },
        _ => (lhs.ty(), None),
    }
}

/// Checks a unary operation on an operand that has been checked already.
pub fn typecheck_unary_operation(
    expr: CheckedExpression,
    op: UnaryOperator,
    span: Span,
    scope_id: ScopeId,
    project: &Project,
    safety_mode: SafetyMode,
) -> (checked: (CheckedExpression, Option<JaktError>))
    requires
        project@.linked(),
        scope_id < project@.scopes.len(),
    ensures
        checked.0@ == unary_operation(expr@, op, span, scope_id, project@, safety_mode).0,
        error_view(checked.1) == unary_operation(
            expr@,
            op,
            span,
            scope_id,
            project@,
            safety_mode,
        ).1,
        project@.well_formed() && expr@.in_range(project@.structs.len())
            ==> checked.0@.in_range(project@.structs.len()),
        expr@.ty().fully_known() && cast_written_in_full(op) && checked.1 is None
            ==> checked.0@.ty().fully_known(),
{
    proof {
        if project@.well_formed() && expr@.in_range(project@.structs.len()) {
            lemma_type_in_range(expr@, project@.structs.len());
        }
    }
    proof {
        if op is TypeCast && written_in_full(op->TypeCast_0) && resolve_typename(
            op->TypeCast_0,
            scope_id,
            project@,
        ).1 is None {
            lemma_resolved_type_fully_known(op->TypeCast_0, scope_id, project@);
        }
    }
    let expr_ty = expr.ty();
    match &op {
        UnaryOperator::TypeCast(target) => {
            let (ty, err) = typecheck_typename(target, scope_id, project);
            (CheckedExpression::UnaryOp(Box::new(expr), op, ty), err)
        },
        UnaryOperator::Dereference => match expr_ty {
            Type::RawPtr(pointee) => {
                let err = match safety_mode {
                    SafetyMode::Unsafe => None,
                    SafetyMode::Safe => Some(
                        typecheck_error("dereference of raw pointer outside of unsafe block", span),
                    ),
                };
                (CheckedExpression::UnaryOp(Box::new(expr), op, *pointee), err)
            },
            _ => (
                CheckedExpression::UnaryOp(Box::new(expr), op, Type::Unknown),
                Some(typecheck_error("dereference of a non-pointer value", span)),
            ),
        },
        UnaryOperator::RawAddress => (
            CheckedExpression::UnaryOp(Box::new(expr), op, Type::RawPtr(Box::new(expr_ty))),
            None,
        ),
        UnaryOperator::LogicalNot => (CheckedExpression::UnaryOp(Box::new(expr), op, expr_ty), None),
        UnaryOperator::BitwiseNot => (CheckedExpression::UnaryOp(Box::new(expr), op, expr_ty), None),
        UnaryOperator::Negate => {
            let err = if expr_ty.is_numeric() {
                None
            } else {
                Some(typecheck_error("negate on non-numeric value", span))
            };
            (CheckedExpression::UnaryOp(Box::new(expr), op, expr_ty), err)
        },
        UnaryOperator::PostDecrement
        | UnaryOperator::PostIncrement
        | UnaryOperator::PreDecrement
        | UnaryOperator::PreIncrement => {
            let err = if !expr_ty.is_numeric() {
                Some(typecheck_error("unary operation on non-numeric value", span))
            } else if !expr.is_mutable() {
                Some(typecheck_error("increment/decrement of immutable variable", span))
            } else {
                None
            };
            (CheckedExpression::UnaryOp(Box::new(expr), op, expr_ty), err)
        },
    }
}

/// Finds the callee of a call.
pub fn resolve_call<'a>(call: &Call, span: &Span, scope_id: ScopeId, project: &'a Project) -> (resolved:
    (Option<&'a CheckedFunction>, Option<JaktError>))
    requires
        project@.well_formed(),
        scope_id < project@.scopes.len(),
    ensures
        error_view(resolved.1) == resolve_callee(*call, *span, scope_id, project@).1,
        match resolved.0 {
            Some(function) => resolve_callee(*call, *span, scope_id, project@).0 matches Some(id)
                && id < project.funs@.len() && *function == project.funs@[id as int],
            None => resolve_callee(*call, *span, scope_id, project@).0 is None,
        },
{
    if call.namespace.len() > 0 {
        let namespace = &call.namespace[0];
        match project.find_struct_in_scope(scope_id, namespace.as_str()) {
            Some(struct_id) => {
                proof {
                    lemma_found_struct_exists(project@, scope_id, namespace@);
                    assert(project@.structs[struct_id as int].well_formed(
                        project@.structs.len(),
                        project@.scopes.len(),
                    ));
                }
                let structure = &project.structs[struct_id];
                proof {
                    lemma_found_function_exists(project@, structure.scope_id, call.name@);
                }
                match project.find_function_in_scope(structure.scope_id, call.name.as_str()) {
                    Some(function_id) => (Some(&project.funs[function_id]), None),
                    None => (None, None),
                }
            },
            None => (
                None,
                Some(named_error("unknown namespace or class: ", namespace.as_str(), *span)),
            ),
        }
    } else {
        proof {
            lemma_found_function_exists(project@, scope_id, call.name@);
        }
        match project.find_function_in_scope(scope_id, call.name.as_str()) {
            Some(function_id) => (Some(&project.funs[function_id]), None),
            None => (
                None,
                Some(named_error("call to unknown function: ", call.name.as_str(), *span)),
            ),
        }
    }
}

/// The type of the field called `name`, taking the first of that name.
fn find_field(fields: &Vec<CheckedVarDecl>, name: &str) -> (found: Option<Type>)
    ensures
        match position(field_names(views(fields@)), name@, 0) {
            Some(at) => found is Some && found.unwrap()@ == views(fields@)[at].ty,
            None => found is None,
        },
{
    let ghost names = field_names(views(fields@));
    let mut i: usize = 0;
    while i < fields.len()
        invariant
            i <= fields.len(),
            names == field_names(views(fields@)),
            position(names, name@, 0) == position(names, name@, i as int),
        decreases fields.len() - i,
    {
        if str_eq(fields[i].name.as_str(), name) {
            return Some(fields[i].ty.clone());
        }
        i += 1;
    }
    None
}

/// Checks the elements of a vector or tuple literal from left to right.
fn typecheck_elements(
    items: &Vec<Expression>,
    uniform: bool,
    scope_id: ScopeId,
    project: &Project,
    safety_mode: SafetyMode,
) -> (checked: (Vec<CheckedExpression>, Option<JaktError>))
    requires
        project@.well_formed(),
        scope_id < project@.scopes.len(),
    ensures
        expression_views(checked.0@) == check_elements(
            items@,
            items@.len(),
            uniform,
            scope_id,
            project@,
            safety_mode,
        ).0,
        error_view(checked.1) == check_elements(
            items@,
            items@.len(),
            uniform,
            scope_id,
            project@,
            safety_mode,
        ).1,
        expressions_in_range(expression_views(checked.0@), project@.structs.len()),
        project@.fully_typed() && all_complete(items@) && checked.1 is None ==> forall|i: int|
            0 <= i < checked.0@.len() ==> (#[trigger] expression_views(
                checked.0@,
            )[i]).ty().fully_known(),
    decreases items, 0nat,
{
    let mut error: Option<JaktError> = None;
    let mut output: Vec<CheckedExpression> = Vec::new();
    let mut i: usize = 0;
    assert(expression_views(output@) =~= Seq::empty());
    while i < items.len()
        invariant
            i <= items.len(),
            project@.well_formed(),
            scope_id < project@.scopes.len(),
            output@.len() == i,
            expression_views(output@) == check_elements(
                items@,
                i as nat,
                uniform,
                scope_id,
                project@,
                safety_mode,
            ).0,
            error_view(error) == check_elements(
                items@,
                i as nat,
                uniform,
                scope_id,
                project@,
                safety_mode,
            ).1,
            expressions_in_range(expression_views(output@), project@.structs.len()),
            project@.fully_typed() && all_complete(items@) && error is None ==> forall|j: int|
                0 <= j < output@.len() ==> (#[trigger] expression_views(
                    output@,
                )[j]).ty().fully_known(),
        decreases items.len() - i,
    {
        let (checked_expr, err) = typecheck_expression(&items[i], scope_id, project, safety_mode);
        error = or_error(error, err);
        if uniform && i > 0 {
            assert(expression_views(output@)[0] == output@[0]@);
            if !checked_expr.ty().same_as(&output[0].ty()) {
                error = or_error(
                    error,
                    Some(
                        typecheck_error(
                            "does not match type of previous values in vector",
                            items[i].span(),
                        ),
                    ),
                );
            }
        }
        proof {
            lemma_expression_views_push(output@, checked_expr);
        }
        output.push(checked_expr);
        i += 1;
    }
    (output, error)
}

/// Checks one argument against the parameter it is passed for.
fn typecheck_argument(
    argument: &(String, Expression),
    param: &CheckedParameter,
    scope_id: ScopeId,
    project: &Project,
    safety_mode: SafetyMode,
) -> (checked: (CheckedExpression, Option<JaktError>))
    requires
        project@.well_formed(),
        scope_id < project@.scopes.len(),
        param@.variable.ty.in_range(project@.structs.len()),
    ensures
        checked.0@ == argument_rule(
            argument.0@,
            argument.1,
            check_expression(argument.1, scope_id, project@, safety_mode),
            param@,
        ).0,
        error_view(checked.1) == argument_rule(
            argument.0@,
            argument.1,
            check_expression(argument.1, scope_id, project@, safety_mode),
            param@,
        ).1,
        checked.0@.in_range(project@.structs.len()),
    decreases argument, 0nat,
{
    let (mut checked_arg, err) = typecheck_expression(
        &argument.1,
        scope_id,
        project,
        safety_mode,
    );
    let mut error = err;
    let elided = match &argument.1 {
        Expression::Var(var_name, _) => str_eq(var_name.as_str(), param.variable.name.as_str()),
        _ => false,
    };
    if param.requires_label && !str_eq(argument.0.as_str(), param.variable.name.as_str())
        && !elided {
        error = or_error(
            error,
            Some(typecheck_error("Wrong parameter name in argument label", argument.1.span())),
        );
    }
    let span = argument.1.span();
    let err = try_promote_constant_expr_to_type(&param.variable.ty, &mut checked_arg, &span);
    error = or_error(error, err);
    if !checked_arg.ty().same_as(&param.variable.ty) {
        error = or_error(
            error,
            Some(typecheck_error("Parameter type mismatch", argument.1.span())),
        );
    }
    (checked_arg, error)
}

/// Checks the arguments of a call against the parameters of its callee,
/// leaving out the first `skipped` parameters.
fn typecheck_arguments(
    arguments: &Vec<(String, Expression)>,
    callee: &CheckedFunction,
    skipped: usize,
    scope_id: ScopeId,
    project: &Project,
    safety_mode: SafetyMode,
) -> (checked: (Vec<(String, CheckedExpression)>, Option<JaktError>))
    requires
        project@.well_formed(),
        scope_id < project@.scopes.len(),
        callee@.well_formed(project@.structs.len()),
        callee.params@.len() == arguments@.len() + skipped,
    ensures
        argument_views(checked.0@) == check_arguments(
            arguments@,
            arguments@.len(),
            callee@.params,
            skipped as nat,
            scope_id,
            project@,
            safety_mode,
        ).0,
        error_view(checked.1) == check_arguments(
            arguments@,
            arguments@.len(),
            callee@.params,
            skipped as nat,
            scope_id,
            project@,
            safety_mode,
        ).1,
        forall|i: int|
            0 <= i < checked.0@.len() ==> (#[trigger] argument_views(checked.0@)[i]).1.in_range(
                project@.structs.len(),
            ),
    decreases arguments, 0nat,
{
    let mut error: Option<JaktError> = None;
    let mut checked_args: Vec<(String, CheckedExpression)> = Vec::new();
    let mut idx: usize = 0;
    assert(argument_views(checked_args@) =~= Seq::empty());
    while idx < arguments.len()
        invariant
            idx <= arguments.len(),
            project@.well_formed(),
            scope_id < project@.scopes.len(),
            callee@.well_formed(project@.structs.len()),
            callee.params@.len() == arguments@.len() + skipped,
            checked_args@.len() == idx,
            argument_views(checked_args@) == check_arguments(
                arguments@,
                idx as nat,
                callee@.params,
                skipped as nat,
                scope_id,
                project@,
                safety_mode,
            ).0,
            error_view(error) == check_arguments(
                arguments@,
                idx as nat,
                callee@.params,
                skipped as nat,
                scope_id,
                project@,
                safety_mode,
            ).1,
            forall|i: int|
                0 <= i < checked_args@.len() ==> (#[trigger] argument_views(
                    checked_args@,
                )[i]).1.in_range(project@.structs.len()),
        decreases arguments.len() - idx,
    {
        assert(callee.params.len() == callee.params@.len());
        let param = &callee.params[idx + skipped];
        assert(callee@.params[idx + skipped] == param@);
        let (checked_arg, err) = typecheck_argument(
            &arguments[idx],
            param,
            scope_id,
            project,
            safety_mode,
        );
        error = or_error(error, err);
        let label = arguments[idx].0.clone();
        proof {
            lemma_argument_views_push(checked_args@, label, checked_arg);
        }
        checked_args.push((label, checked_arg));
        idx += 1;
    }
    (checked_args, error)
}

/// Checks the arguments of a call to a printing function.
fn typecheck_print_arguments(
    arguments: &Vec<(String, Expression)>,
    scope_id: ScopeId,
    project: &Project,
    safety_mode: SafetyMode,
) -> (checked: (Vec<(String, CheckedExpression)>, Option<JaktError>))
    requires
        project@.well_formed(),
        scope_id < project@.scopes.len(),
    ensures
        argument_views(checked.0@) == check_print_arguments(
            arguments@,
            arguments@.len(),
            scope_id,
            project@,
            safety_mode,
        ).0,
        error_view(checked.1) == check_print_arguments(
            arguments@,
            arguments@.len(),
            scope_id,
            project@,
            safety_mode,
        ).1,
        forall|i: int|
            0 <= i < checked.0@.len() ==> (#[trigger] argument_views(checked.0@)[i]).1.in_range(
                project@.structs.len(),
            ),
    decreases arguments, 0nat,
{
    let mut error: Option<JaktError> = None;
    let mut checked_args: Vec<(String, CheckedExpression)> = Vec::new();
    let mut idx: usize = 0;
    assert(argument_views(checked_args@) =~= Seq::empty());
    while idx < arguments.len()
        invariant
            idx <= arguments.len(),
            project@.well_formed(),
            scope_id < project@.scopes.len(),
            checked_args@.len() == idx,
            argument_views(checked_args@) == check_print_arguments(
                arguments@,
                idx as nat,
                scope_id,
                project@,
                safety_mode,
            ).0,
            error_view(error) == check_print_arguments(
                arguments@,
                idx as nat,
                scope_id,
                project@,
                safety_mode,
            ).1,
            forall|i: int|
                0 <= i < checked_args@.len() ==> (#[trigger] argument_views(
                    checked_args@,
                )[i]).1.in_range(project@.structs.len()),
        decreases arguments.len() - idx,
    {
        let (checked_arg, err) = typecheck_expression(
            &arguments[idx].1,
            scope_id,
            project,
            safety_mode,
        );
        error = or_error(error, err);
        let label = arguments[idx].0.clone();
        proof {
            lemma_argument_views_push(checked_args@, label, checked_arg);
        }
        checked_args.push((label, checked_arg));
        idx += 1;
    }
    (checked_args, error)
}

/// Checks the arguments of a call whose callee has been looked up.
fn typecheck_resolved_call(
    call: &Call,
    namespace: Vec<String>,
    callee: Option<&CheckedFunction>,
    callee_error: Option<JaktError>,
    Ghost(callee_id): Ghost<Option<FunctionId>>,
    skipped: usize,
    scope_id: ScopeId,
    span: &Span,
    project: &Project,
    safety_mode: SafetyMode,
) -> (checked: (CheckedCall, Option<JaktError>))
    requires
        project@.well_formed(),
        scope_id < project@.scopes.len(),
        skipped <= 1,
        match callee {
            Some(function) => callee_id matches Some(id) && id < project.funs@.len() && *function
                == project.funs@[id as int],
            None => callee_id is None,
        },
    ensures
        checked.0@ == resolved_call(
            *call,
            string_views(namespace@),
            (callee_id, error_view(callee_error)),
            skipped as nat,
            *span,
            project@,
            check_arguments(
                call.args@,
                call.args@.len(),
                callee_params(callee_id, project@),
                skipped as nat,
                scope_id,
                project@,
                safety_mode,
            ),
        ).0,
        error_view(checked.1) == resolved_call(
            *call,
            string_views(namespace@),
            (callee_id, error_view(callee_error)),
            skipped as nat,
            *span,
            project@,
            check_arguments(
                call.args@,
                call.args@.len(),
                callee_params(callee_id, project@),
                skipped as nat,
                scope_id,
                project@,
                safety_mode,
            ),
        ).1,
        checked.0@.in_range(project@.structs.len()),
        project@.fully_typed() && callee_id is Some ==> checked.0@.ty.fully_known(),
    decreases call, 1nat,
{
    match callee {
        Some(function) => {
            proof {
                let id = callee_id.unwrap();
                assert(project@.funs[id as int] == function@);
                assert(project@.funs[id as int].well_formed(project@.structs.len()));
            }
            let return_ty = function.return_type.clone();
            assert(function.params.len() == function@.params.len());
            assert(callee_params(callee_id, project@) == function@.params);
            if call.args.len() > usize::MAX - skipped || function.params.len() != call.args.len()
                + skipped {
                let checked_call = CheckedCall {
                    namespace,
                    name: call.name.clone(),
                    args: Vec::new(),
                    ty: return_ty,
                };
                assert(checked_call@.args =~= Seq::empty());
                (
                    checked_call,
                    or_error(
                        callee_error,
                        Some(typecheck_error("wrong number of arguments", *span)),
                    ),
                )
            } else {
                let (checked_args, err) = typecheck_arguments(
                    &call.args,
                    function,
                    skipped,
                    scope_id,
                    project,
                    safety_mode,
                );
                (
                    CheckedCall {
                        namespace,
                        name: call.name.clone(),
                        args: checked_args,
                        ty: return_ty,
                    },
                    or_error(callee_error, err),
                )
            }
        },
        None => {
            let checked_call = CheckedCall {
                namespace,
                name: call.name.clone(),
                args: Vec::new(),
                ty: Type::Unknown,
            };
            assert(checked_call@.args =~= Seq::empty());
            (checked_call, callee_error)
        },
    }
}

/// Checks a call of a function.
pub fn typecheck_call(
    call: &Call,
    scope_id: ScopeId,
    span: &Span,
    project: &Project,
    safety_mode: SafetyMode,
) -> (checked: (CheckedCall, Option<JaktError>))
    requires
        project@.well_formed(),
        scope_id < project@.scopes.len(),
    ensures
        checked.0@ == check_call(*call, scope_id, *span, project@, safety_mode).0,
        error_view(checked.1) == check_call(*call, scope_id, *span, project@, safety_mode).1,
        checked.0@.in_range(project@.structs.len()),
        project@.fully_typed() && complete_call(*call) && checked.1 is None
            ==> checked.0@.ty.fully_known(),
    decreases call, 2nat,
{
    if str_eq(call.name.as_str(), "println") || str_eq(call.name.as_str(), "eprintln") {
        let (checked_args, error) = typecheck_print_arguments(
            &call.args,
            scope_id,
            project,
            safety_mode,
        );
        (
            CheckedCall {
                namespace: clone_strings(&call.namespace),
                name: call.name.clone(),
                args: checked_args,
                ty: Type::Void,
            },
            error,
        )
    } else {
        let (callee, err) = resolve_call(call, span, scope_id, project);
        typecheck_resolved_call(
            call,
            clone_strings(&call.namespace),
            callee,
            err,
            Ghost(resolve_callee(*call, *span, scope_id, project@).0),
            0,
            scope_id,
            span,
            project,
            safety_mode,
        )
    }
}

/// Checks a call of a method of record `struct_id`, with its arguments taken
/// from scope `scope_id`.
pub fn typecheck_method_call(
    call: &Call,
    scope_id: ScopeId,
    span: &Span,
    project: &Project,
    struct_id: StructId,
    safety_mode: SafetyMode,
) -> (checked: (CheckedCall, Option<JaktError>))
    requires
        project@.well_formed(),
        scope_id < project@.scopes.len(),
        struct_id < project@.structs.len(),
    ensures
        checked.0@ == check_method_call(*call, scope_id, *span, project@, struct_id, safety_mode).0,
        error_view(checked.1) == check_method_call(
            *call,
            scope_id,
            *span,
            project@,
            struct_id,
            safety_mode,
        ).1,
        checked.0@.in_range(project@.structs.len()),
        project@.fully_typed() && complete_call(*call) && checked.1 is None
            ==> checked.0@.ty.fully_known(),
    decreases call, 2nat,
{
    assert(project@.structs[struct_id as int].well_formed(
        project@.structs.len(),
        project@.scopes.len(),
    ));
    let record_scope_id = project.structs[struct_id].scope_id;
    let (callee, err) = resolve_call(call, span, record_scope_id, project);
    let namespace: Vec<String> = Vec::new();
    assert(string_views(namespace@) =~= Seq::empty());
    typecheck_resolved_call(
        call,
        namespace,
        callee,
        err,
        Ghost(resolve_callee(*call, *span, record_scope_id, project@).0),
        1,
        scope_id,
        span,
        project,
        safety_mode,
    )
}

/// The record whose methods a receiver of type `receiver` offers, and the
/// scope in which arguments of a call on it are checked.
fn find_method_home(receiver: &Type, scope_id: ScopeId, project: &Project) -> (home: Option<
    (StructId, ScopeId),
>)
    requires
        project@.well_formed(),
        scope_id < project@.scopes.len(),
        receiver@.in_range(project@.structs.len()),
    ensures
        home == method_home(receiver@, scope_id, project@),
        home matches Some(h) ==> h.0 < project@.structs.len() && h.1 < project@.scopes.len(),
{
    match receiver {
        Type::Struct(struct_id) => Some((*struct_id, scope_id)),
        Type::String => {
            proof {
                lemma_found_struct_exists(project@, 0, "String"@);
            }
            match project.find_struct_in_scope(0, "String") {
                Some(struct_id) => Some((struct_id, 0)),
                None => None,
            }
        },
        Type::Vector(_) => {
            proof {
                lemma_found_struct_exists(project@, 0, "RefVector"@);
            }
            match project.find_struct_in_scope(0, "RefVector") {
                Some(struct_id) => Some((struct_id, 0)),
                None => None,
            }
        },
        _ => None,
    }
}

/// Applies a binary operator to two checked operands.
fn finish_binary(
    checked_lhs: CheckedExpression,
    lhs_error: Option<JaktError>,
    checked_rhs: CheckedExpression,
    rhs_error: Option<JaktError>,
    op: BinaryOperator,
    span: Span,
    Ghost(records): Ghost<nat>,
) -> (checked: (CheckedExpression, Option<JaktError>))
    requires
        checked_lhs@.in_range(records),
        checked_rhs@.in_range(records),
    ensures
        checked.0@ == binary_expression(
            (checked_lhs@, error_view(lhs_error)),
            op,
            (checked_rhs@, error_view(rhs_error)),
            span,
        ).0,
        error_view(checked.1) == binary_expression(
            (checked_lhs@, error_view(lhs_error)),
            op,
            (checked_rhs@, error_view(rhs_error)),
            span,
        ).1,
        checked.0@.in_range(records),
        checked_lhs@.ty().fully_known() ==> checked.0@.ty().fully_known(),
{
    let mut checked_rhs = checked_rhs;
    let mut error = or_error(lhs_error, rhs_error);
    let err = try_promote_constant_expr_to_type(&checked_lhs.ty(), &mut checked_rhs, &span);
    error = or_error(error, err);
    let (ty, err) = typecheck_binary_operation(&checked_lhs, &op, &checked_rhs, span);
    error = or_error(error, err);
    proof {
        lemma_type_in_range(checked_lhs@, records);
        assert(checked_rhs@.in_range(records));
        assert(ty@.in_range(records));
    }
    (CheckedExpression::BinaryOp(Box::new(checked_lhs), op, Box::new(checked_rhs), ty), error)
}

/// Unwraps a checked optional.
fn finish_forced_unwrap(
    checked_expr: CheckedExpression,
    error: Option<JaktError>,
    value_span: Span,
    Ghost(records): Ghost<nat>,
) -> (checked: (CheckedExpression, Option<JaktError>))
    requires
        checked_expr@.in_range(records),
    ensures
        checked.0@ == forced_unwrap((checked_expr@, error_view(error)), value_span).0,
        error_view(checked.1) == forced_unwrap((checked_expr@, error_view(error)), value_span).1,
        checked.0@.in_range(records),
        checked_expr@.ty().fully_known() && checked.1 is None ==> checked.0@.ty().fully_known(),
{
    proof {
        lemma_type_in_range(checked_expr@, records);
    }
    match checked_expr.ty() {
        Type::Optional(payload) => (
            CheckedExpression::ForcedUnwrap(Box::new(checked_expr), *payload),
            error,
        ),
        _ => (
            CheckedExpression::ForcedUnwrap(Box::new(checked_expr), Type::Unknown),
            or_error(
                error,
                Some(typecheck_error("Forced unwrap only works on Optional", value_span)),
            ),
        ),
    }
}

/// Builds a vector literal from its checked elements.
fn finish_vector(
    output: Vec<CheckedExpression>,
    error: Option<JaktError>,
    Ghost(records): Ghost<nat>,
) -> (checked: (CheckedExpression, Option<JaktError>))
    requires
        expressions_in_range(expression_views(output@), records),
    ensures
        checked.0@ == vector_literal(None, (expression_views(output@), error_view(error))).0,
        error_view(checked.1) == vector_literal(
            None,
            (expression_views(output@), error_view(error)),
        ).1,
        checked.0@.in_range(records),
        output@.len() > 0 && expression_views(output@)[0].ty().fully_known()
            ==> checked.0@.ty().fully_known(),
{
    let inner_ty = if output.len() == 0 {
        Type::Unknown
    } else {
        proof {
            assert(expression_views(output@)[0] == output@[0]@);
            assert(expression_views(output@)[0].in_range(records));
            lemma_type_in_range(output@[0]@, records);
        }
        output[0].ty()
    };
    assert(inner_ty@.in_range(records));
    let ty = Type::Vector(Box::new(inner_ty));
    assert(ty@.in_range(records));
    (CheckedExpression::Vector(output, None, ty), error)
}

/// Builds a vector literal from its checked fill size and elements.
fn finish_filled_vector(
    fill_size: CheckedExpression,
    fill_error: Option<JaktError>,
    output: Vec<CheckedExpression>,
    error: Option<JaktError>,
    Ghost(records): Ghost<nat>,
) -> (checked: (CheckedExpression, Option<JaktError>))
    requires
        fill_size@.in_range(records),
        expressions_in_range(expression_views(output@), records),
    ensures
        checked.0@ == vector_literal(
            Some((fill_size@, error_view(fill_error))),
            (expression_views(output@), error_view(error)),
        ).0,
        error_view(checked.1) == vector_literal(
            Some((fill_size@, error_view(fill_error))),
            (expression_views(output@), error_view(error)),
        ).1,
        checked.0@.in_range(records),
        output@.len() > 0 && expression_views(output@)[0].ty().fully_known()
            ==> checked.0@.ty().fully_known(),
{
    let inner_ty = if output.len() == 0 {
        Type::Unknown
    } else {
        proof {
            assert(expression_views(output@)[0] == output@[0]@);
            assert(expression_views(output@)[0].in_range(records));
            lemma_type_in_range(output@[0]@, records);
        }
        output[0].ty()
    };
    assert(inner_ty@.in_range(records));
    let ty = Type::Vector(Box::new(inner_ty));
    assert(ty@.in_range(records));
    (CheckedExpression::Vector(output, Some(Box::new(fill_size)), ty), or_error(fill_error, error))
}

/// Builds a tuple literal from its checked members.
fn finish_tuple(
    checked_items: Vec<CheckedExpression>,
    error: Option<JaktError>,
    Ghost(records): Ghost<nat>,
) -> (checked: (CheckedExpression, Option<JaktError>))
    requires
        expressions_in_range(expression_views(checked_items@), records),
    ensures
        checked.0@ == tuple_literal((expression_views(checked_items@), error_view(error))).0,
        error_view(checked.1) == tuple_literal(
            (expression_views(checked_items@), error_view(error)),
        ).1,
        checked.0@.in_range(records),
        (forall|i: int|
            0 <= i < checked_items@.len() ==> (#[trigger] expression_views(
                checked_items@,
            )[i]).ty().fully_known()) ==> checked.0@.ty().fully_known(),
{
    let mut checked_types: Vec<Type> = Vec::new();
    let mut i: usize = 0;
    while i < checked_items.len()
        invariant
            i <= checked_items.len(),
            checked_types@.len() == i,
            forall|j: int|
                0 <= j < i ==> checked_types@[j]@ == expression_views(checked_items@)[j].ty(),
        decreases checked_items.len() - i,
    {
        assert(expression_views(checked_items@)[i as int] == checked_items@[i as int]@);
        checked_types.push(checked_items[i].ty());
        i += 1;
    }
    let ty = Type::Tuple(checked_types);
    proof {
        assert(ty@->Tuple_0 =~= types_of(expression_views(checked_items@)));
        assert forall|j: int| 0 <= j < ty@->Tuple_0.len() implies (#[trigger] ty@->Tuple_0[j]).in_range(
            records,
        ) by {
            lemma_type_in_range(expression_views(checked_items@)[j], records);
        }
    }
    (CheckedExpression::Tuple(checked_items, ty), error)
}

/// Indexes a checked vector by a checked index.
fn finish_indexed_expression(
    checked_expr: CheckedExpression,
    base_error: Option<JaktError>,
    checked_idx: CheckedExpression,
    index_error: Option<JaktError>,
    base_span: Span,
    index_span: Span,
    Ghost(records): Ghost<nat>,
) -> (checked: (CheckedExpression, Option<JaktError>))
    requires
        checked_expr@.in_range(records),
        checked_idx@.in_range(records),
    ensures
        checked.0@ == indexed_expression(
            (checked_expr@, error_view(base_error)),
            (checked_idx@, error_view(index_error)),
            base_span,
            index_span,
        ).0,
        error_view(checked.1) == indexed_expression(
            (checked_expr@, error_view(base_error)),
            (checked_idx@, error_view(index_error)),
            base_span,
            index_span,
        ).1,
        checked.0@.in_range(records),
        checked_expr@.ty().fully_known() && checked.1 is None ==> checked.0@.ty().fully_known(),
{
    let mut error = or_error(base_error, index_error);
    proof {
        lemma_type_in_range(checked_expr@, records);
    }
    let mut ty = Type::Unknown;
    match checked_expr.ty() {
        Type::Vector(inner_ty) => {
            if checked_idx.ty().is_integer() {
                ty = *inner_ty;
            } else {
                error = or_error(
                    error,
                    Some(typecheck_error("index is not an integer", index_span)),
                );
            }
        },
        _ => {
            error = or_error(
                error,
                Some(typecheck_error("index used on value that can't be indexed", base_span)),
            );
        },
    }
    (
        CheckedExpression::IndexedExpression(Box::new(checked_expr), Box::new(checked_idx), ty),
        error,
    )
}

/// Takes a member of a checked tuple.
fn finish_indexed_tuple(
    checked_expr: CheckedExpression,
    base_error: Option<JaktError>,
    index: usize,
    span: Span,
    base_span: Span,
    Ghost(records): Ghost<nat>,
) -> (checked: (CheckedExpression, Option<JaktError>))
    requires
        checked_expr@.in_range(records),
    ensures
        checked.0@ == indexed_tuple(
            (checked_expr@, error_view(base_error)),
            index,
            span,
            base_span,
        ).0,
        error_view(checked.1) == indexed_tuple(
            (checked_expr@, error_view(base_error)),
            index,
            span,
            base_span,
        ).1,
        checked.0@.in_range(records),
        checked_expr@.ty().fully_known() && checked.1 is None ==> checked.0@.ty().fully_known(),
{
    let mut error = base_error;
    proof {
        lemma_type_in_range(checked_expr@, records);
    }
    let mut ty = Type::Unknown;
    match checked_expr.ty() {
        Type::Tuple(members) => {
            if index < members.len() {
                ty = members[index].clone();
            } else {
                error = or_error(
                    error,
                    Some(typecheck_error("tuple index past the end of the tuple", span)),
                );
            }
        },
        _ => {
            error = or_error(
                error,
                Some(typecheck_error("tuple index used non-tuple value", base_span)),
            );
        },
    }
    (CheckedExpression::IndexedTuple(Box::new(checked_expr), index, ty), error)
}

/// Takes a field of a checked record.
fn finish_indexed_struct(
    checked_expr: CheckedExpression,
    base_error: Option<JaktError>,
    name: &String,
    span: Span,
    project: &Project,
) -> (checked: (CheckedExpression, Option<JaktError>))
    requires
        project@.well_formed(),
        checked_expr@.in_range(project@.structs.len()),
    ensures
        checked.0@ == indexed_struct(
            (checked_expr@, error_view(base_error)),
            name@,
            span,
            project@,
        ).0,
        error_view(checked.1) == indexed_struct(
            (checked_expr@, error_view(base_error)),
            name@,
            span,
            project@,
        ).1,
        checked.0@.in_range(project@.structs.len()),
        project@.fully_typed() && checked.1 is None ==> checked.0@.ty().fully_known(),
{
    let mut error = base_error;
    proof {
        lemma_type_in_range(checked_expr@, project@.structs.len());
    }
    let mut ty = Type::Unknown;
    match checked_expr.ty() {
        Type::Struct(struct_id) => {
            let structure = &project.structs[struct_id];
            assert(project@.structs[struct_id as int] == structure@);
            assert(structure@.well_formed(project@.structs.len(), project@.scopes.len()));
            proof {
                lemma_position_is_first(field_names(structure@.fields), name@, 0);
            }
            match find_field(&structure.fields, name.as_str()) {
                Some(field_ty) => {
                    ty = field_ty;
                },
                None => {
                    let message = String::from_str("unknown member of struct: ").concat(
                        structure.name.as_str(),
                    ).concat(".").concat(name.as_str());
                    assert(message@ == unknown_member_message(structure@.name, name@));
                    error = or_error(error, Some(JaktError::TypecheckError(message, span)));
                },
            }
        },
        _ => {
            error = or_error(
                error,
                Some(typecheck_error("member access of non-struct value", span)),
            );
        },
    }
    (CheckedExpression::IndexedStruct(Box::new(checked_expr), name.clone(), ty), error)
}

/// Checks an expression in scope `scope_id`.
pub fn typecheck_expression(
    expr: &Expression,
    scope_id: ScopeId,
    project: &Project,
    safety_mode: SafetyMode,
) -> (checked: (CheckedExpression, Option<JaktError>))
    requires
        project@.well_formed(),
        scope_id < project@.scopes.len(),
    ensures
        checked.0@ == check_expression(*expr, scope_id, project@, safety_mode).0,
        error_view(checked.1) == check_expression(*expr, scope_id, project@, safety_mode).1,
        checked.0@.in_range(project@.structs.len()),
        project@.fully_typed() && complete(*expr) && checked.1 is None
            ==> checked.0@.ty().fully_known(),
    decreases expr, 0nat,
{
    let ghost records = project@.structs.len();
    match expr {
        Expression::BinaryOp(lhs, op, rhs, span) => {
            let (checked_lhs, lhs_error) = typecheck_expression(
                lhs,
                scope_id,
                project,
                safety_mode,
            );
            let (checked_rhs, rhs_error) = typecheck_expression(
                rhs,
                scope_id,
                project,
                safety_mode,
            );
            finish_binary(
                checked_lhs,
                lhs_error,
                checked_rhs,
                rhs_error,
                *op,
                *span,
                Ghost(records),
            )
        },
        Expression::UnaryOp(operand, op, span) => {
            let (checked_expr, err) = typecheck_expression(operand, scope_id, project, safety_mode);
            let (checked_expr, err2) = typecheck_unary_operation(
                checked_expr,
                op.clone(),
                *span,
                scope_id,
                project,
                safety_mode,
            );
            (checked_expr, or_error(err, err2))
        },
        Expression::OptionalNone(_) => (CheckedExpression::OptionalNone(Type::Unknown), None),
        Expression::OptionalSome(value, _) => {
            let (checked_expr, err) = typecheck_expression(value, scope_id, project, safety_mode);
            let ty = Type::Optional(Box::new(checked_expr.ty()));
            proof {
                lemma_type_in_range(checked_expr@, records);
            }
            (CheckedExpression::OptionalSome(Box::new(checked_expr), ty), err)
        },
        Expression::ForcedUnwrap(value, _) => {
            let (checked_expr, err) = typecheck_expression(value, scope_id, project, safety_mode);
            finish_forced_unwrap(checked_expr, err, value.span(), Ghost(records))
        },
        Expression::Boolean(b, _) => (CheckedExpression::Boolean(*b), None),
        Expression::Call(call, span) => {
            let (checked_call, err) = typecheck_call(call, scope_id, span, project, safety_mode);
            let ty = checked_call.ty.clone();
            (CheckedExpression::Call(checked_call, ty), err)
        },
        Expression::NumericConstant(constant, _) => (
            CheckedExpression::NumericConstant(*constant, constant.ty()),
            None,
        ),
        Expression::QuotedString(text, _) => (CheckedExpression::QuotedString(text.clone()), None),
        Expression::CharacterLiteral(c, _) => (CheckedExpression::CharacterConstant(*c), None),
        Expression::Var(name, span) => {
            proof {
                lemma_found_var_in_range(project@, scope_id, name@);
                if project@.fully_typed() {
                    lemma_found_var_fully_known(project@, scope_id, name@);
                }
            }
            match project.find_var_in_scope(scope_id, name.as_str()) {
                Some(variable) => (CheckedExpression::Var(variable), None),
                None => (
                    CheckedExpression::Var(
                        CheckedVariable { name: name.clone(), ty: Type::Unknown, mutable: false },
                    ),
                    Some(typecheck_error("variable not found", *span)),
                ),
            }
        },
        Expression::Vector(items, fill_size, _) => match fill_size {
            Some(size) => {
                let (checked_size, size_error) = typecheck_expression(
                    size,
                    scope_id,
                    project,
                    safety_mode,
                );
                let (output, err) = typecheck_elements(items, true, scope_id, project, safety_mode);
                finish_filled_vector(checked_size, size_error, output, err, Ghost(records))
            },
            None => {
                let (output, err) = typecheck_elements(items, true, scope_id, project, safety_mode);
                finish_vector(output, err, Ghost(records))
            },
        },
        Expression::Tuple(items, _) => {
            let (checked_items, error) = typecheck_elements(
                items,
                false,
                scope_id,
                project,
                safety_mode,
            );
            finish_tuple(checked_items, error, Ghost(records))
        },
        Expression::IndexedExpression(base, index, _) => {
            let (checked_expr, base_error) = typecheck_expression(
                base,
                scope_id,
                project,
                safety_mode,
            );
            let (checked_idx, index_error) = typecheck_expression(
                index,
                scope_id,
                project,
                safety_mode,
            );
            finish_indexed_expression(
                checked_expr,
                base_error,
                checked_idx,
                index_error,
                base.span(),
                index.span(),
                Ghost(records),
            )
        },
        Expression::IndexedTuple(base, index, span) => {
            let (checked_expr, err) = typecheck_expression(base, scope_id, project, safety_mode);
            finish_indexed_tuple(checked_expr, err, *index, *span, base.span(), Ghost(records))
        },
        Expression::IndexedStruct(base, name, span) => {
            let (checked_expr, err) = typecheck_expression(base, scope_id, project, safety_mode);
            finish_indexed_struct(checked_expr, err, name, *span, project)
        },
        Expression::MethodCall(receiver, call, span) => {
            let (checked_expr, err) = typecheck_expression(
                receiver,
                scope_id,
                project,
                safety_mode,
            );
            proof {
                lemma_type_in_range(checked_expr@, records);
            }
            match find_method_home(&checked_expr.ty(), scope_id, project) {
                Some((struct_id, argument_scope_id)) => {
                    let (checked_call, err2) = typecheck_method_call(
                        call,
                        argument_scope_id,
                        span,
                        project,
                        struct_id,
                        safety_mode,
                    );
                    let ty = checked_call.ty.clone();
                    (
                        CheckedExpression::MethodCall(Box::new(checked_expr), checked_call, ty),
                        or_error(err, err2),
                    )
                },
                None => (
                    CheckedExpression::Garbage,
                    or_error(
                        err,
                        Some(typecheck_error("no methods available on value", receiver.span())),
                    ),
                ),
            }
        },
        Expression::Operator(_, span) => (
            CheckedExpression::Garbage,
            Some(typecheck_error("garbage in expression", *span)),
        ),
        Expression::Garbage(span) => (
            CheckedExpression::Garbage,
            Some(typecheck_error("garbage in expression", *span)),
        ),
    }
}

} // verus!
