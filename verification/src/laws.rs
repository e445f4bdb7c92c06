//! Laws of the checker: what holds of every project, every scope and every
//! checked node, proved from the definitions.

use crate::checked::{CheckedExpressionView, CheckedParameterView, CheckedVariableView};
use crate::error::Span;
use crate::project::{bound_to, variable_named, variable_names, ProjectView};
use crate::rules::{
    callee_params, check_arguments, check_call, check_method_call, is_print, resolve_callee,
};
use crate::syntax::{Call, Expression};
use crate::types::{FunctionId, SafetyMode, ScopeId, StructId, TypeView};
use vstd::prelude::*;

verus! {

/// From any scope of a linked project, the walk towards the root ends at
/// the top-level scope.
pub proof fn lemma_scope_walk_ends_at_root(project: ProjectView, scope_id: ScopeId)
    requires
        project.linked(),
        scope_id < project.scopes.len(),
    ensures
        project.walk_end(scope_id) == 0,
    decreases scope_id,
{
    if scope_id > 0 {
        let scope = project.scopes[scope_id as int];
        assert(scope.parent is Some && scope.parent.unwrap() < scope_id);
        lemma_scope_walk_ends_at_root(project, scope.parent.unwrap());
    }
}

/// No two variables of one scope of a well-formed project have one name.
pub proof fn lemma_variable_names_unique(
    project: ProjectView,
    scope_id: ScopeId,
    first: int,
    second: int,
)
    requires
        project.well_formed(),
        scope_id < project.scopes.len(),
        0 <= first < second < project.scopes[scope_id as int].vars.len(),
    ensures
        project.scopes[scope_id as int].vars[first].name
            != project.scopes[scope_id as int].vars[second].name,
{
    let scope = project.scopes[scope_id as int];
    assert(scope.well_formed(project.structs.len(), project.funs.len()));
    assert(variable_names(scope.vars)[first] != variable_names(scope.vars)[second]);
}

/// A field or an element may be assigned to exactly when what it is taken
/// from may be.
pub proof fn lemma_mutability_passes_through_indexing(
    base: CheckedExpressionView,
    index: CheckedExpressionView,
    field: Seq<char>,
    field_type: TypeView,
    element_type: TypeView,
)
    ensures
        CheckedExpressionView::IndexedStruct(Box::new(base), field, field_type).is_mutable()
            == base.is_mutable(),
        CheckedExpressionView::IndexedExpression(
            Box::new(base),
            Box::new(index),
            element_type,
        ).is_mutable() == base.is_mutable(),
{
}

/// Apart from variables, fields and elements, nothing may be assigned to.
pub proof fn lemma_other_forms_are_immutable(expr: CheckedExpressionView)
    requires
        !(expr is Var),
        !(expr is IndexedStruct),
        !(expr is IndexedExpression),
    ensures
        !expr.is_mutable(),
{
}

/// A variable may be assigned to exactly when it was declared mutable.
pub proof fn lemma_variable_mutability(variable: CheckedVariableView)
    ensures
        CheckedExpressionView::Var(variable).is_mutable() == variable.mutable,
{
}

/// The first declaration of a variable wins: a second declaration of the
/// name in the same scope changes nothing, and the name still refers to the
/// first.
pub proof fn lemma_first_variable_wins(
    project: ProjectView,
    scope_id: ScopeId,
    later: CheckedVariableView,
)
    requires
        scope_id < project.scopes.len(),
        variable_named(project.scopes[scope_id as int].vars, later.name) is Some,
    ensures
        project.add_var(scope_id, later) == project,
        project.add_var(scope_id, later).find_var_in_scope(scope_id, later.name)
            == variable_named(project.scopes[scope_id as int].vars, later.name),
{
}

/// The first declaration of a record name wins.
pub proof fn lemma_first_struct_wins(
    project: ProjectView,
    scope_id: ScopeId,
    name: Seq<char>,
    later: StructId,
)
    requires
        scope_id < project.scopes.len(),
        bound_to(project.scopes[scope_id as int].structs, name) is Some,
    ensures
        project.add_struct(scope_id, name, later) == project,
        project.add_struct(scope_id, name, later).find_struct_in_scope(scope_id, name)
            == bound_to(project.scopes[scope_id as int].structs, name),
{
}

/// The first declaration of a function name wins.
pub proof fn lemma_first_function_wins(
    project: ProjectView,
    scope_id: ScopeId,
    name: Seq<char>,
    later: FunctionId,
)
    requires
        scope_id < project.scopes.len(),
        bound_to(project.scopes[scope_id as int].funs, name) is Some,
    ensures
        project.add_function(scope_id, name, later) == project,
        project.add_function(scope_id, name, later).find_function_in_scope(scope_id, name)
            == bound_to(project.scopes[scope_id as int].funs, name),
{
}

/// Checking the first `n` arguments of a call yields `n` checked arguments.
pub proof fn lemma_checked_arguments_count(
    arguments: Seq<(String, Expression)>,
    n: nat,
    params: Seq<CheckedParameterView>,
    skipped: nat,
    scope_id: ScopeId,
    project: ProjectView,
    safety_mode: SafetyMode,
)
    requires
        n <= arguments.len(),
    ensures
        check_arguments(arguments, n, params, skipped, scope_id, project, safety_mode).0.len()
            == n,
    decreases n,
{
    if n > 0 {
        lemma_checked_arguments_count(
            arguments,
            (n - 1) as nat,
            params,
            skipped,
            scope_id,
            project,
            safety_mode,
        );
    }
}

/// A call of a function that checks without a diagnostic and has a callee
/// has one checked argument for each parameter of the callee.
pub proof fn lemma_call_matches_parameters(
    call: Call,
    scope_id: ScopeId,
    span: Span,
    project: ProjectView,
    safety_mode: SafetyMode,
)
    requires
        !is_print(call.name@),
        resolve_callee(call, span, scope_id, project).0 is Some,
        check_call(call, scope_id, span, project, safety_mode).1 is None,
    ensures
        check_call(call, scope_id, span, project, safety_mode).0.args.len() == callee_params(
            resolve_callee(call, span, scope_id, project).0,
            project,
        ).len(),
{
    let callee = resolve_callee(call, span, scope_id, project);
    lemma_checked_arguments_count(
        call.args@,
        call.args@.len(),
        callee_params(callee.0, project),
        0,
        scope_id,
        project,
        safety_mode,
    );
}

/// A call of a method that checks without a diagnostic and has a callee has
/// one checked argument for each parameter of the callee after the
/// receiver.
pub proof fn lemma_method_call_matches_parameters(
    call: Call,
    scope_id: ScopeId,
    span: Span,
    project: ProjectView,
    struct_id: StructId,
    safety_mode: SafetyMode,
)
    requires
        resolve_callee(
            call,
            span,
            project.structs[struct_id as int].scope_id,
            project,
        ).0 is Some,
        check_method_call(call, scope_id, span, project, struct_id, safety_mode).1 is None,
    ensures
        check_method_call(call, scope_id, span, project, struct_id, safety_mode).0.args.len() + 1
            == callee_params(
            resolve_callee(call, span, project.structs[struct_id as int].scope_id, project).0,
            project,
        ).len(),
{
    let callee = resolve_callee(call, span, project.structs[struct_id as int].scope_id, project);
    lemma_checked_arguments_count(
        call.args@,
        call.args@.len(),
        callee_params(callee.0, project),
        1,
        scope_id,
        project,
        safety_mode,
    );
}

} // verus!
