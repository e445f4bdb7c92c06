//! The typing rules, stated over the models.
//!
//! Every function here is a definition: it says what the checker makes of a
//! piece of syntax in a given project. The executable checker is verified
//! against these definitions.
//!
//! A rule yields the checked node together with the first diagnostic raised
//! while building it. A node is built even where a diagnostic is raised, so
//! that checking can go on.

use crate::checked::{
    string_views, CheckedCallView, CheckedExpressionView, CheckedParameterView,
    CheckedVarDeclView, CheckedVariableView,
};
use crate::constants::narrowed;
use crate::error::{first_error, JaktErrorView, Span};
use crate::project::{position, ProjectView};
use crate::syntax::{BinaryOperator, Call, Expression, UnaryOperator};
use crate::typename::resolve_typename;
use crate::types::{FunctionId, SafetyMode, ScopeId, StructId, TypeView};
use vstd::prelude::*;

verus! {

/// A diagnostic with the given message at the given place.
pub open spec fn error_at(message: Seq<char>, span: Span) -> Option<JaktErrorView> {
    Some(JaktErrorView::TypecheckError(message, span))
}

/// The diagnostic, raised only where `failed` holds.
pub open spec fn error_if(failed: bool, message: Seq<char>, span: Span) -> Option<JaktErrorView> {
    if failed {
        error_at(message, span)
    } else {
        None
    }
}

/// Narrowing of an integer literal towards a target type. Where the target
/// is an integer type and the expression an integer literal, the literal is
/// replaced by the literal of the target's width with the same value if the
/// target holds that value, and a diagnostic is raised if it does not.
/// Everything else passes through unchanged.
pub open spec fn promote_constant(
    target: TypeView,
    checked: CheckedExpressionView,
    span: Span,
) -> (CheckedExpressionView, Option<JaktErrorView>) {
    if !target.is_integer() {
        (checked, None)
    } else {
        match checked.to_integer_constant() {
            Some(constant) => if target.holds(constant.value()) {
                (
                    CheckedExpressionView::NumericConstant(
                        narrowed(constant.value(), target),
                        target,
                    ),
                    None,
                )
            } else {
                (checked, error_at("Integer promotion failed"@, span))
            },
            None => (checked, None),
        }
    }
}

/// The message for an assignment whose two sides differ in type.
pub open spec fn incompatible_types_message(lhs: TypeView, rhs: TypeView) -> Seq<char> {
    "assignment between incompatible types ("@ + lhs.text() + " and "@ + rhs.text() + ")"@
}

/// The type of a binary operation. The two short-circuit operators yield
/// `Bool`; every other operator yields the type of its left operand. An
/// assignment asks that both sides have one type and that the left side may
/// be assigned to.
pub open spec fn binary_operation(
    lhs: CheckedExpressionView,
    op: BinaryOperator,
    rhs: CheckedExpressionView,
    span: Span,
) -> (TypeView, Option<JaktErrorView>) {
    if op.is_logical() {
        (TypeView::Bool, None)
    } else if op.is_assignment() {
        if lhs.ty() != rhs.ty() {
            (lhs.ty(), error_at(incompatible_types_message(lhs.ty(), rhs.ty()), span))
        } else if !lhs.is_mutable() {
            (lhs.ty(), error_at("assignment to immutable variable"@, span))
        } else {
            (lhs.ty(), None)
        }
    } else {
        (lhs.ty(), None)
    }
}

/// The type of a unary operation on a checked operand.
pub open spec fn unary_type(
    operand: CheckedExpressionView,
    op: UnaryOperator,
    scope_id: ScopeId,
    project: ProjectView,
) -> TypeView {
    match op {
        UnaryOperator::TypeCast(target) => resolve_typename(target, scope_id, project).0,
        UnaryOperator::Dereference => match operand.ty() {
            TypeView::RawPtr(pointee) => *pointee,
            _ => TypeView::Unknown,
        },
        UnaryOperator::RawAddress => TypeView::RawPtr(Box::new(operand.ty())),
        _ => operand.ty(),
    }
}

/// The diagnostic of a unary operation on a checked operand, if any.
pub open spec fn unary_error(
    operand: CheckedExpressionView,
    op: UnaryOperator,
    span: Span,
    scope_id: ScopeId,
    project: ProjectView,
    safety_mode: SafetyMode,
) -> Option<JaktErrorView> {
    match op {
        UnaryOperator::TypeCast(target) => resolve_typename(target, scope_id, project).1,
        UnaryOperator::Dereference => match operand.ty() {
            TypeView::RawPtr(_) => error_if(
                safety_mode != SafetyMode::Unsafe,
                "dereference of raw pointer outside of unsafe block"@,
                span,
            ),
            _ => error_at("dereference of a non-pointer value"@, span),
        },
        UnaryOperator::RawAddress => None,
        UnaryOperator::LogicalNot => None,
        UnaryOperator::BitwiseNot => None,
        UnaryOperator::Negate => error_if(
            !operand.ty().is_numeric(),
            "negate on non-numeric value"@,
            span,
        ),
        _ => if !operand.ty().is_numeric() {
            error_at("unary operation on non-numeric value"@, span)
        } else {
            error_if(!operand.is_mutable(), "increment/decrement of immutable variable"@, span)
        },
    }
}

/// A unary operation on a checked operand: the node always wraps the operand.
pub open spec fn unary_operation(
    operand: CheckedExpressionView,
    op: UnaryOperator,
    span: Span,
    scope_id: ScopeId,
    project: ProjectView,
    safety_mode: SafetyMode,
) -> (CheckedExpressionView, Option<JaktErrorView>) {
    (
        CheckedExpressionView::UnaryOp(
            Box::new(operand),
            op,
            unary_type(operand, op, scope_id, project),
        ),
        unary_error(operand, op, span, scope_id, project, safety_mode),
    )
}

/// The names of a sequence of fields, in order.
pub open spec fn field_names(fields: Seq<CheckedVarDeclView>) -> Seq<Seq<char>> {
    Seq::new(fields.len(), |i: int| fields[i].name)
}

/// The message for a field that a record does not have.
pub open spec fn unknown_member_message(record: Seq<char>, member: Seq<char>) -> Seq<char> {
    "unknown member of struct: "@ + record + "."@ + member
}

/// The callee of a call, and the diagnostic where none is found. With a
/// namespace in front, its first part names a record, and the callee is
/// looked up from that record's scope; a miss there raises nothing. Without
/// one, the callee is looked up from the calling scope.
pub open spec fn resolve_callee(
    call: Call,
    span: Span,
    scope_id: ScopeId,
    project: ProjectView,
) -> (Option<FunctionId>, Option<JaktErrorView>) {
    if call.namespace@.len() > 0 {
        let namespace = call.namespace@[0]@;
        match project.find_struct_in_scope(scope_id, namespace) {
            Some(struct_id) => (
                project.find_function_in_scope(
                    project.structs[struct_id as int].scope_id,
                    call.name@,
                ),
                None,
            ),
            None => (None, error_at("unknown namespace or class: "@ + namespace, span)),
        }
    } else {
        match project.find_function_in_scope(scope_id, call.name@) {
            Some(function_id) => (Some(function_id), None),
            None => (None, error_at("call to unknown function: "@ + call.name@, span)),
        }
    }
}

/// True of the two built-in printing functions, which take any arguments.
pub open spec fn is_print(name: Seq<char>) -> bool {
    name == "println"@ || name == "eprintln"@
}

/// Whether an argument meets the label that its parameter asks for: the
/// parameter asks for none, or the label is the parameter's name, or the
/// argument is the bare variable of that name.
pub open spec fn label_accepted(
    label: Seq<char>,
    argument: Expression,
    param: CheckedParameterView,
) -> bool {
    ||| !param.requires_label
    ||| label == param.variable.name
    ||| (argument matches Expression::Var(name, _) && name@ == param.variable.name)
}

/// A checked node and the first diagnostic raised while building it.
pub type Checked = (CheckedExpressionView, Option<JaktErrorView>);

/// The rule for a binary operation whose operands have been checked: the
/// right operand is narrowed towards the type of the left one, then the
/// operator is applied.
pub open spec fn binary_expression(
    left: Checked,
    op: BinaryOperator,
    right: Checked,
    span: Span,
) -> Checked {
    let promoted = promote_constant(left.0.ty(), right.0, span);
    let operation = binary_operation(left.0, op, promoted.0, span);
    (
        CheckedExpressionView::BinaryOp(Box::new(left.0), op, Box::new(promoted.0), operation.0),
        first_error(first_error(first_error(left.1, right.1), promoted.1), operation.1),
    )
}

/// The rule for a unary operation whose operand has been checked.
pub open spec fn unary_expression(
    operand: Checked,
    op: UnaryOperator,
    span: Span,
    scope_id: ScopeId,
    project: ProjectView,
    safety_mode: SafetyMode,
) -> Checked {
    let operation = unary_operation(operand.0, op, span, scope_id, project, safety_mode);
    (operation.0, first_error(operand.1, operation.1))
}

/// The rule for `Some(value)`: an optional of the value's type.
pub open spec fn optional_some(value: Checked) -> Checked {
    (
        CheckedExpressionView::OptionalSome(
            Box::new(value.0),
            TypeView::Optional(Box::new(value.0.ty())),
        ),
        value.1,
    )
}

/// The rule for a forced unwrap: the payload type of an optional, and a
/// diagnostic at the operand for anything else.
pub open spec fn forced_unwrap(value: Checked, value_span: Span) -> Checked {
    match value.0.ty() {
        TypeView::Optional(payload) => (
            CheckedExpressionView::ForcedUnwrap(Box::new(value.0), *payload),
            value.1,
        ),
        _ => (
            CheckedExpressionView::ForcedUnwrap(Box::new(value.0), TypeView::Unknown),
            first_error(value.1, error_at("Forced unwrap only works on Optional"@, value_span)),
        ),
    }
}

/// The rule for a variable: the variable that the name refers to from the
/// scope, and an immutable variable of unknown type where there is none.
pub open spec fn variable_reference(
    name: Seq<char>,
    span: Span,
    scope_id: ScopeId,
    project: ProjectView,
) -> Checked {
    match project.find_var_in_scope(scope_id, name) {
        Some(variable) => (CheckedExpressionView::Var(variable), None),
        None => (
            CheckedExpressionView::Var(
                CheckedVariableView { name, ty: TypeView::Unknown, mutable: false },
            ),
            error_at("variable not found"@, span),
        ),
    }
}

/// The element type of a vector literal: the type of its first element, and
/// `Unknown` where it has none.
pub open spec fn element_type(elements: Seq<CheckedExpressionView>) -> TypeView {
    if elements.len() == 0 {
        TypeView::Unknown
    } else {
        elements[0].ty()
    }
}

/// The types of a sequence of checked expressions, in order.
pub open spec fn types_of(elements: Seq<CheckedExpressionView>) -> Seq<TypeView> {
    Seq::new(elements.len(), |i: int| elements[i].ty())
}

/// The rule for a vector literal whose fill size and elements have been
/// checked: a vector of the element type. The fill size comes first among
/// the diagnostics.
pub open spec fn vector_literal(
    fill_size: Option<Checked>,
    elements: (Seq<CheckedExpressionView>, Option<JaktErrorView>),
) -> Checked {
    let ty = TypeView::Vector(Box::new(element_type(elements.0)));
    match fill_size {
        Some(size) => (
            CheckedExpressionView::Vector(elements.0, Some(Box::new(size.0)), ty),
            first_error(size.1, elements.1),
        ),
        None => (CheckedExpressionView::Vector(elements.0, None, ty), elements.1),
    }
}

/// The rule for a tuple literal whose members have been checked: the tuple
/// of the members' types.
pub open spec fn tuple_literal(
    elements: (Seq<CheckedExpressionView>, Option<JaktErrorView>),
) -> Checked {
    (CheckedExpressionView::Tuple(elements.0, TypeView::Tuple(types_of(elements.0))), elements.1)
}

/// The rule for `base[index]`: the element type where the base is a vector
/// and the index an integer.
pub open spec fn indexed_expression(
    base: Checked,
    index: Checked,
    base_span: Span,
    index_span: Span,
) -> Checked {
    let outcome: (TypeView, Option<JaktErrorView>) = match base.0.ty() {
        TypeView::Vector(element) => if index.0.ty().is_integer() {
            (*element, None)
        } else {
            (TypeView::Unknown, error_at("index is not an integer"@, index_span))
        },
        _ => (
            TypeView::Unknown,
            error_at("index used on value that can't be indexed"@, base_span),
        ),
    };
    (
        CheckedExpressionView::IndexedExpression(Box::new(base.0), Box::new(index.0), outcome.0),
        first_error(first_error(base.1, index.1), outcome.1),
    )
}

/// The rule for `base.index` with a literal index: the type of that member
/// where the base is a tuple with enough members.
pub open spec fn indexed_tuple(base: Checked, index: usize, span: Span, base_span: Span) -> Checked {
    let outcome: (TypeView, Option<JaktErrorView>) = match base.0.ty() {
        TypeView::Tuple(members) => if index < members.len() {
            (members[index as int], None)
        } else {
            (TypeView::Unknown, error_at("tuple index past the end of the tuple"@, span))
        },
        _ => (TypeView::Unknown, error_at("tuple index used non-tuple value"@, base_span)),
    };
    (
        CheckedExpressionView::IndexedTuple(Box::new(base.0), index, outcome.0),
        first_error(base.1, outcome.1),
    )
}

/// The rule for `base.name`: the type of the field called `name` where the
/// base is a record that has one.
pub open spec fn indexed_struct(
    base: Checked,
    name: Seq<char>,
    span: Span,
    project: ProjectView,
) -> Checked {
    let outcome: (TypeView, Option<JaktErrorView>) = match base.0.ty() {
        TypeView::Struct(struct_id) => {
            let structure = project.structs[struct_id as int];
            match position(field_names(structure.fields), name, 0) {
                Some(at) => (structure.fields[at].ty, None),
                None => (
                    TypeView::Unknown,
                    error_at(unknown_member_message(structure.name, name), span),
                ),
            }
        },
        _ => (TypeView::Unknown, error_at("member access of non-struct value"@, span)),
    };
    (
        CheckedExpressionView::IndexedStruct(Box::new(base.0), name, outcome.0),
        first_error(base.1, outcome.1),
    )
}

/// The record whose methods a receiver of type `receiver` offers, and the
/// scope in which the arguments of a call on it are checked. A record offers
/// its own; strings and vectors offer those of the records that the
/// top-level scope calls `String` and `RefVector`, and arguments of calls on
/// them are checked in the top-level scope. No other type offers any.
pub open spec fn method_home(receiver: TypeView, scope_id: ScopeId, project: ProjectView) -> Option<
    (StructId, ScopeId),
> {
    match receiver {
        TypeView::Struct(struct_id) => Some((struct_id, scope_id)),
        TypeView::String => match project.find_struct_in_scope(0, "String"@) {
            Some(struct_id) => Some((struct_id, 0)),
            None => None,
        },
        TypeView::Vector(_) => match project.find_struct_in_scope(0, "RefVector"@) {
            Some(struct_id) => Some((struct_id, 0)),
            None => None,
        },
        _ => None,
    }
}

/// The rule for a call expression whose call has been checked: it takes the
/// type of the call.
pub open spec fn call_expression(call: (CheckedCallView, Option<JaktErrorView>)) -> Checked {
    (CheckedExpressionView::Call(call.0, call.0.ty), call.1)
}

/// The rule for a method call whose receiver and call have been checked.
pub open spec fn method_call_expression(
    receiver: Checked,
    call: (CheckedCallView, Option<JaktErrorView>),
) -> Checked {
    (
        CheckedExpressionView::MethodCall(Box::new(receiver.0), call.0, call.0.ty),
        first_error(receiver.1, call.1),
    )
}

/// The rule for a method call on a receiver whose type offers no methods.
pub open spec fn no_methods(receiver: Checked, receiver_span: Span) -> Checked {
    (
        CheckedExpressionView::Garbage,
        first_error(receiver.1, error_at("no methods available on value"@, receiver_span)),
    )
}

/// The rule for what the parser left as garbage.
pub open spec fn garbage(span: Span) -> Checked {
    (CheckedExpressionView::Garbage, error_at("garbage in expression"@, span))
}

/// The rule for one more element of a vector or tuple literal. With
/// `uniform` set, every element after the first is held to the type of the
/// first.
pub open spec fn with_element(
    earlier: (Seq<CheckedExpressionView>, Option<JaktErrorView>),
    last: Checked,
    uniform: bool,
    last_span: Span,
) -> (Seq<CheckedExpressionView>, Option<JaktErrorView>) {
    let mismatch = error_if(
        uniform && earlier.0.len() > 0 && last.0.ty() != element_type(earlier.0),
        "does not match type of previous values in vector"@,
        last_span,
    );
    (earlier.0.push(last.0), first_error(first_error(earlier.1, last.1), mismatch))
}

/// The rule for one argument, already checked, against the parameter it is
/// passed for: the label is held to the parameter's, the argument is
/// narrowed towards the parameter's type, and the two types are compared.
pub open spec fn argument_rule(
    label: Seq<char>,
    argument: Expression,
    checked: Checked,
    param: CheckedParameterView,
) -> Checked {
    let wrong_label = error_if(
        !label_accepted(label, argument, param),
        "Wrong parameter name in argument label"@,
        argument.span(),
    );
    let promoted = promote_constant(param.variable.ty, checked.0, argument.span());
    let mismatch = error_if(
        promoted.0.ty() != param.variable.ty,
        "Parameter type mismatch"@,
        argument.span(),
    );
    (
        promoted.0,
        first_error(first_error(first_error(checked.1, wrong_label), promoted.1), mismatch),
    )
}

/// Checked arguments, each with the label it was given, and the first
/// diagnostic raised among them.
pub type CheckedArguments = (Seq<(Seq<char>, CheckedExpressionView)>, Option<JaktErrorView>);

/// The rule for one more checked argument.
pub open spec fn with_argument(
    earlier: CheckedArguments,
    label: Seq<char>,
    last: Checked,
) -> CheckedArguments {
    (earlier.0.push((label, last.0)), first_error(earlier.1, last.1))
}

/// The rule for a call to a printing function whose arguments have been
/// checked: whatever they are, the call yields `Void`.
pub open spec fn print_call(call: Call, arguments: CheckedArguments) -> (
    CheckedCallView,
    Option<JaktErrorView>,
) {
    (
        CheckedCallView {
            namespace: string_views(call.namespace@),
            name: call.name@,
            args: arguments.0,
            ty: TypeView::Void,
        },
        arguments.1,
    )
}

/// The parameters of a callee, and none where there is no callee.
pub open spec fn callee_params(callee: Option<FunctionId>, project: ProjectView) -> Seq<
    CheckedParameterView,
> {
    match callee {
        Some(function_id) => project.funs[function_id as int].params,
        None => Seq::empty(),
    }
}

/// The rule for a call once its callee has been looked up and its arguments
/// checked against the callee's parameters. `skipped` is the number of
/// leading parameters that take no argument: none for a function, one (the
/// receiver) for a method. The call takes the callee's return type. A call
/// with the wrong number of arguments keeps none of them; a call without a
/// callee has no arguments and unknown type.
pub open spec fn resolved_call(
    call: Call,
    namespace: Seq<Seq<char>>,
    callee: (Option<FunctionId>, Option<JaktErrorView>),
    skipped: nat,
    span: Span,
    project: ProjectView,
    arguments: CheckedArguments,
) -> (CheckedCallView, Option<JaktErrorView>) {
    match callee.0 {
        Some(function_id) => {
            let function = project.funs[function_id as int];
            if function.params.len() != call.args@.len() + skipped {
                (
                    CheckedCallView {
                        namespace,
                        name: call.name@,
                        args: Seq::empty(),
                        ty: function.return_type,
                    },
                    first_error(callee.1, error_at("wrong number of arguments"@, span)),
                )
            } else {
                (
                    CheckedCallView {
                        namespace,
                        name: call.name@,
                        args: arguments.0,
                        ty: function.return_type,
                    },
                    first_error(callee.1, arguments.1),
                )
            }
        },
        None => (
            CheckedCallView {
                namespace,
                name: call.name@,
                args: Seq::empty(),
                ty: TypeView::Unknown,
            },
            callee.1,
        ),
    }
}

/// The rule for an expression.
pub open spec fn check_expression(
    expr: Expression,
    scope_id: ScopeId,
    project: ProjectView,
    safety_mode: SafetyMode,
) -> Checked
    decreases expr, 0nat,
{
    match expr {
        Expression::BinaryOp(lhs, op, rhs, span) => binary_expression(
            check_expression(*lhs, scope_id, project, safety_mode),
            op,
            check_expression(*rhs, scope_id, project, safety_mode),
            span,
        ),
        Expression::UnaryOp(operand, op, span) => unary_expression(
            check_expression(*operand, scope_id, project, safety_mode),
            op,
            span,
            scope_id,
            project,
            safety_mode,
        ),
        Expression::OptionalNone(_) => (
            CheckedExpressionView::OptionalNone(TypeView::Unknown),
            None,
        ),
        Expression::OptionalSome(value, _) => optional_some(
            check_expression(*value, scope_id, project, safety_mode),
        ),
        Expression::ForcedUnwrap(value, _) => forced_unwrap(
            check_expression(*value, scope_id, project, safety_mode),
            value.span(),
        ),
        Expression::Boolean(b, _) => (CheckedExpressionView::Boolean(b), None),
        Expression::Call(call, span) => call_expression(
            check_call(call, scope_id, span, project, safety_mode),
        ),
        Expression::NumericConstant(constant, _) => (
            CheckedExpressionView::NumericConstant(constant, constant.type_of()),
            None,
        ),
        Expression::QuotedString(text, _) => (CheckedExpressionView::QuotedString(text@), None),
        Expression::CharacterLiteral(c, _) => (CheckedExpressionView::CharacterConstant(c), None),
        Expression::Var(name, span) => variable_reference(name@, span, scope_id, project),
        Expression::Vector(items, fill_size, _) => vector_literal(
            match fill_size {
                Some(size) => Some(check_expression(*size, scope_id, project, safety_mode)),
                None => None,
            },
            check_elements(items@, items@.len(), true, scope_id, project, safety_mode),
        ),
        Expression::Tuple(items, _) => tuple_literal(
            check_elements(items@, items@.len(), false, scope_id, project, safety_mode),
        ),
        Expression::IndexedExpression(base, index, _) => indexed_expression(
            check_expression(*base, scope_id, project, safety_mode),
            check_expression(*index, scope_id, project, safety_mode),
            base.span(),
            index.span(),
        ),
        Expression::IndexedTuple(base, index, span) => indexed_tuple(
            check_expression(*base, scope_id, project, safety_mode),
            index,
            span,
            base.span(),
        ),
        Expression::IndexedStruct(base, name, span) => indexed_struct(
            check_expression(*base, scope_id, project, safety_mode),
            name@,
            span,
            project,
        ),
        Expression::MethodCall(receiver, call, span) => {
            let checked_receiver = check_expression(*receiver, scope_id, project, safety_mode);
            match method_home(checked_receiver.0.ty(), scope_id, project) {
                Some(home) => method_call_expression(
                    checked_receiver,
                    check_method_call(call, home.1, span, project, home.0, safety_mode),
                ),
                None => no_methods(checked_receiver, receiver.span()),
            }
        },
        Expression::Operator(_, span) => garbage(span),
        Expression::Garbage(span) => garbage(span),
    }
}

/// The rule for the first `n` of a sequence of expressions, checked from left
/// to right.
pub open spec fn check_elements(
    items: Seq<Expression>,
    n: nat,
    uniform: bool,
    scope_id: ScopeId,
    project: ProjectView,
    safety_mode: SafetyMode,
) -> (Seq<CheckedExpressionView>, Option<JaktErrorView>)
    decreases items, n,
{
    if n == 0 || n > items.len() {
        (Seq::empty(), None)
    } else {
        with_element(
            check_elements(items, (n - 1) as nat, uniform, scope_id, project, safety_mode),
            check_expression(items[n - 1], scope_id, project, safety_mode),
            uniform,
            items[n - 1].span(),
        )
    }
}

/// The rule for the first `n` arguments of a call, checked from left to
/// right. Argument `i` is passed for parameter `i + skipped`.
pub open spec fn check_arguments(
    arguments: Seq<(String, Expression)>,
    n: nat,
    params: Seq<CheckedParameterView>,
    skipped: nat,
    scope_id: ScopeId,
    project: ProjectView,
    safety_mode: SafetyMode,
) -> CheckedArguments
    decreases arguments, n,
{
    if n == 0 || n > arguments.len() {
        (Seq::empty(), None)
    } else {
        with_argument(
            check_arguments(
                arguments,
                (n - 1) as nat,
                params,
                skipped,
                scope_id,
                project,
                safety_mode,
            ),
            arguments[n - 1].0@,
            argument_rule(
                arguments[n - 1].0@,
                arguments[n - 1].1,
                check_expression(arguments[n - 1].1, scope_id, project, safety_mode),
                params[n - 1 + skipped],
            ),
        )
    }
}

/// The rule for the first `n` arguments of a call to a printing function:
/// each is checked and nothing is asked of it.
pub open spec fn check_print_arguments(
    arguments: Seq<(String, Expression)>,
    n: nat,
    scope_id: ScopeId,
    project: ProjectView,
    safety_mode: SafetyMode,
) -> CheckedArguments
    decreases arguments, n,
{
    if n == 0 || n > arguments.len() {
        (Seq::empty(), None)
    } else {
        with_argument(
            check_print_arguments(arguments, (n - 1) as nat, scope_id, project, safety_mode),
            arguments[n - 1].0@,
            check_expression(arguments[n - 1].1, scope_id, project, safety_mode),
        )
    }
}

/// The rule for a call of a function. The printing functions take whatever
/// they are given; any other callee is resolved by name from the calling
/// scope.
pub open spec fn check_call(
    call: Call,
    scope_id: ScopeId,
    span: Span,
    project: ProjectView,
    safety_mode: SafetyMode,
) -> (CheckedCallView, Option<JaktErrorView>)
    decreases call, 0nat,
{
    if is_print(call.name@) {
        print_call(
            call,
            check_print_arguments(call.args@, call.args@.len(), scope_id, project, safety_mode),
        )
    } else {
        let callee = resolve_callee(call, span, scope_id, project);
        resolved_call(
            call,
            string_views(call.namespace@),
            callee,
            0,
            span,
            project,
            check_arguments(
                call.args@,
                call.args@.len(),
                callee_params(callee.0, project),
                0,
                scope_id,
                project,
                safety_mode,
            ),
        )
    }
}

/// The rule for a call of a method of record `struct_id`. The callee is
/// looked up from the record's scope; the arguments are checked in scope
/// `scope_id` against the parameters after the receiver. The checked call
/// records no namespace.
pub open spec fn check_method_call(
    call: Call,
    scope_id: ScopeId,
    span: Span,
    project: ProjectView,
    struct_id: StructId,
    safety_mode: SafetyMode,
) -> (CheckedCallView, Option<JaktErrorView>)
    decreases call, 0nat,
{
    let callee = resolve_callee(call, span, project.structs[struct_id as int].scope_id, project);
    resolved_call(
        call,
        Seq::empty(),
        callee,
        1,
        span,
        project,
        check_arguments(
            call.args@,
            call.args@.len(),
            callee_params(callee.0, project),
            1,
            scope_id,
            project,
            safety_mode,
        ),
    )
}

/// The expression leaves nothing to inference and names its callees
/// plainly: it holds no `None`, no empty vector literal, no cast to a type
/// that is not written in full, and no call with a namespace in front.
pub open spec fn complete(expr: Expression) -> bool
    decreases expr, 0nat,
{
    match expr {
        Expression::BinaryOp(lhs, _, rhs, _) => complete(*lhs) && complete(*rhs),
        Expression::UnaryOp(operand, op, _) => complete(*operand) && cast_written_in_full(op),
        Expression::OptionalNone(_) => false,
        Expression::OptionalSome(value, _) => complete(*value),
        Expression::ForcedUnwrap(value, _) => complete(*value),
        Expression::Call(call, _) => complete_call(call),
        Expression::Vector(items, fill_size, _) => items@.len() > 0 && all_complete(items@) && (
        fill_size matches Some(size) ==> complete(*size)),
        Expression::Tuple(items, _) => all_complete(items@),
        Expression::IndexedExpression(base, index, _) => complete(*base) && complete(*index),
        Expression::IndexedTuple(base, _, _) => complete(*base),
        Expression::IndexedStruct(base, _, _) => complete(*base),
        Expression::MethodCall(receiver, call, _) => complete(*receiver) && complete_call(call),
        _ => true,
    }
}

/// A cast names a type that is written in full; any other operator passes.
pub open spec fn cast_written_in_full(op: UnaryOperator) -> bool {
    op matches UnaryOperator::TypeCast(target) ==> crate::typename::written_in_full(target)
}

/// Every expression of the sequence is complete.
pub open spec fn all_complete(items: Seq<Expression>) -> bool
    decreases items, 1nat,
{
    forall|i: int| 0 <= i < items.len() ==> complete(#[trigger] items[i])
}

/// The call has no namespace in front, and every argument is complete.
pub open spec fn complete_call(call: Call) -> bool
    decreases call, 0nat,
{
    call.namespace@.len() == 0 && forall|i: int|
        0 <= i < call.args@.len() ==> complete((#[trigger] call.args@[i]).1)
}

} // verus!
