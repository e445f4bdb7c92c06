//! The statement and block checker.
//!
//! Checking statements changes the project: every block gets a scope of its
//! own, and every variable declaration adds to the scope it stands in. The
//! rules here thread the project through, in the order of the source.

use crate::checked::{
    lemma_statement_views_push, lemma_type_in_range, statement_views, CheckedBlock,
    CheckedBlockView, CheckedStatement, CheckedStatementView, CheckedVarDecl,
    CheckedVarDeclView, CheckedVariable,
};
use crate::error::{error_view, first_error, or_error, JaktError, JaktErrorView};
use crate::expression::{try_promote_constant_expr_to_type, typecheck_expression};
use crate::project::{
    lemma_add_var, lemma_growth_chains, lemma_grows_to_itself, lemma_with_scope_grows,
    redefinition_error, variable_named, Project, ProjectView,
};
use crate::rules::{check_expression, promote_constant};
use crate::syntax::{Block, Expression, Statement, VarDecl};
use crate::typename::{resolve_typename, typecheck_typename};
use crate::types::{SafetyMode, ScopeId};
use vstd::prelude::*;

verus! {

/// A checked statement, the first diagnostic raised while building it, and
/// the project as the statement leaves it.
pub type CheckedStep = (CheckedStatementView, Option<JaktErrorView>, ProjectView);

/// The rule for a variable declaration. The initializer is checked first.
/// Where no type is written and the initializer has one, the variable takes
/// the initializer's type; otherwise it takes the written type, with the
/// diagnostic of resolving it. The initializer is then narrowed towards that
/// type, and the variable is declared in scope `scope_id`.
pub open spec fn declare_variable(
    decl: VarDecl,
    init: Expression,
    scope_id: ScopeId,
    project: ProjectView,
    safety_mode: SafetyMode,
) -> CheckedStep {
    let checked = check_expression(init, scope_id, project, safety_mode);
    let written = resolve_typename(decl.ty, scope_id, project);
    let inferred = written.0 is Unknown && !(checked.0.ty() is Unknown);
    let ty = if inferred {
        checked.0.ty()
    } else {
        written.0
    };
    let type_error = if inferred {
        None
    } else {
        written.1
    };
    let promoted = promote_constant(ty, checked.0, init.span());
    let checked_decl = CheckedVarDeclView {
        name: decl.name@,
        ty,
        mutable: decl.mutable,
        span: decl.span,
    };
    let redefinition = if variable_named(project.scopes[scope_id as int].vars, decl.name@)
        is Some {
        Some(redefinition_error(decl.name@, decl.span))
    } else {
        None
    };
    (
        CheckedStatementView::VarDecl(checked_decl, promoted.0),
        first_error(first_error(first_error(checked.1, type_error), promoted.1), redefinition),
        project.add_var(scope_id, checked_decl.variable()),
    )
}

/// The rule for a statement in scope `scope_id`.
pub open spec fn check_statement(
    stmt: Statement,
    scope_id: ScopeId,
    project: ProjectView,
    safety_mode: SafetyMode,
) -> CheckedStep
    decreases stmt, 0nat,
{
    match stmt {
        Statement::Expression(expr) => {
            let checked = check_expression(expr, scope_id, project, safety_mode);
            (CheckedStatementView::Expression(checked.0), checked.1, project)
        },
        Statement::Defer(deferred) => {
            let checked = check_statement(*deferred, scope_id, project, safety_mode);
            (CheckedStatementView::Defer(Box::new(checked.0)), checked.1, checked.2)
        },
        Statement::UnsafeBlock(block) => {
            let checked = check_block(block, scope_id, project, SafetyMode::Unsafe);
            (CheckedStatementView::Block(checked.0), checked.1, checked.2)
        },
        Statement::VarDecl(decl, init) => declare_variable(
            decl,
            init,
            scope_id,
            project,
            safety_mode,
        ),
        Statement::If(cond, block, otherwise) => {
            let checked_cond = check_expression(cond, scope_id, project, safety_mode);
            let checked_block = check_block(block, scope_id, project, safety_mode);
            let earlier = first_error(checked_cond.1, checked_block.1);
            match otherwise {
                Some(else_stmt) => {
                    let checked_else = check_statement(
                        *else_stmt,
                        scope_id,
                        checked_block.2,
                        safety_mode,
                    );
                    (
                        CheckedStatementView::If(
                            checked_cond.0,
                            checked_block.0,
                            Some(Box::new(checked_else.0)),
                        ),
                        first_error(earlier, checked_else.1),
                        checked_else.2,
                    )
                },
                None => (
                    CheckedStatementView::If(checked_cond.0, checked_block.0, None),
                    earlier,
                    checked_block.2,
                ),
            }
        },
        Statement::While(cond, block) => {
            let checked_cond = check_expression(cond, scope_id, project, safety_mode);
            let checked_block = check_block(block, scope_id, project, safety_mode);
            (
                CheckedStatementView::While(checked_cond.0, checked_block.0),
                first_error(checked_cond.1, checked_block.1),
                checked_block.2,
            )
        },
        Statement::Return(expr) => {
            let checked = check_expression(expr, scope_id, project, safety_mode);
            (CheckedStatementView::Return(checked.0), checked.1, project)
        },
        Statement::Block(block) => {
            let checked = check_block(block, scope_id, project, safety_mode);
            (CheckedStatementView::Block(checked.0), checked.1, checked.2)
        },
        Statement::Garbage => (CheckedStatementView::Garbage, None, project),
    }
}

/// The rule for the first `n` statements of a sequence, checked in order in
/// scope `scope_id`, each in the project that the one before it left.
pub open spec fn check_statements(
    stmts: Seq<Statement>,
    n: nat,
    scope_id: ScopeId,
    project: ProjectView,
    safety_mode: SafetyMode,
) -> (Seq<CheckedStatementView>, Option<JaktErrorView>, ProjectView)
    decreases stmts, n,
{
    if n == 0 || n > stmts.len() {
        (Seq::empty(), None, project)
    } else {
        let earlier = check_statements(stmts, (n - 1) as nat, scope_id, project, safety_mode);
        let last = check_statement(stmts[n - 1], scope_id, earlier.2, safety_mode);
        (earlier.0.push(last.0), first_error(earlier.1, last.1), last.2)
    }
}

/// The rule for a block: a scope is created below `parent_scope_id`, and the
/// statements are checked in it.
pub open spec fn check_block(
    block: Block,
    parent_scope_id: ScopeId,
    project: ProjectView,
    safety_mode: SafetyMode,
) -> (CheckedBlockView, Option<JaktErrorView>, ProjectView)
    decreases block, 0nat,
{
    let checked = check_statements(
        block.stmts@,
        block.stmts@.len(),
        project.scopes.len() as ScopeId,
        project.with_scope(parent_scope_id),
        safety_mode,
    );
    (CheckedBlockView { stmts: checked.0 }, checked.1, checked.2)
}

/// Checks a variable declaration and declares the variable.
fn typecheck_var_decl(
    var_decl: &VarDecl,
    init: &Expression,
    scope_id: ScopeId,
    project: &mut Project,
    safety_mode: SafetyMode,
) -> (checked: (CheckedStatement, Option<JaktError>))
    requires
        old(project)@.well_formed(),
        scope_id < old(project)@.scopes.len(),
    ensures
        checked.0@ == declare_variable(*var_decl, *init, scope_id, old(project)@, safety_mode).0,
        error_view(checked.1) == declare_variable(
            *var_decl,
            *init,
            scope_id,
            old(project)@,
            safety_mode,
        ).1,
        final(project)@ == declare_variable(
            *var_decl,
            *init,
            scope_id,
            old(project)@,
            safety_mode,
        ).2,
        final(project)@.well_formed(),
        old(project)@.grows_to(final(project)@),
        final(project)@.structs == old(project)@.structs,
        final(project)@.funs == old(project)@.funs,
        checked.0@.in_range(final(project)@.structs.len()),
{
    let (mut checked_expression, err) = typecheck_expression(
        init,
        scope_id,
        project,
        safety_mode,
    );
    let mut error = err;
    let (mut checked_type, err) = typecheck_typename(&var_decl.ty, scope_id, project);
    proof {
        lemma_type_in_range(checked_expression@, project@.structs.len());
    }
    if checked_type.is_unknown() && !checked_expression.ty().is_unknown() {
        checked_type = checked_expression.ty();
    } else {
        error = or_error(error, err);
    }
    let span = init.span();
    let err = try_promote_constant_expr_to_type(&checked_type, &mut checked_expression, &span);
    error = or_error(error, err);
    assert(checked_expression@.in_range(project@.structs.len()));
    let checked_var_decl = CheckedVarDecl {
        name: var_decl.name.clone(),
        ty: checked_type.clone(),
        span: var_decl.span,
        mutable: var_decl.mutable,
    };
    let variable = CheckedVariable {
        name: var_decl.name.clone(),
        ty: checked_type,
        mutable: var_decl.mutable,
    };
    proof {
        lemma_add_var(project@, scope_id, variable@);
    }
    match project.add_var_to_scope(scope_id, variable, var_decl.span) {
        Ok(_) => {},
        Err(err) => {
            error = or_error(error, Some(err));
        },
    }
    (CheckedStatement::VarDecl(checked_var_decl, checked_expression), error)
}

/// Checks a statement in scope `scope_id`.
pub fn typecheck_statement(
    stmt: &Statement,
    scope_id: ScopeId,
    project: &mut Project,
    safety_mode: SafetyMode,
) -> (checked: (CheckedStatement, Option<JaktError>))
    requires
        old(project)@.well_formed(),
        scope_id < old(project)@.scopes.len(),
    ensures
        checked.0@ == check_statement(*stmt, scope_id, old(project)@, safety_mode).0,
        error_view(checked.1) == check_statement(*stmt, scope_id, old(project)@, safety_mode).1,
        final(project)@ == check_statement(*stmt, scope_id, old(project)@, safety_mode).2,
        final(project)@.well_formed(),
        old(project)@.grows_to(final(project)@),
        final(project)@.structs == old(project)@.structs,
        final(project)@.funs == old(project)@.funs,
        checked.0@.in_range(final(project)@.structs.len()),
    decreases stmt,
{
    proof {
        lemma_grows_to_itself(project@);
    }
    match stmt {
        Statement::Expression(expr) => {
            let (checked_expr, err) = typecheck_expression(expr, scope_id, project, safety_mode);
            (CheckedStatement::Expression(checked_expr), err)
        },
        Statement::Defer(statement) => {
            let (checked_statement, err) = typecheck_statement(
                statement,
                scope_id,
                project,
                safety_mode,
            );
            (CheckedStatement::Defer(Box::new(checked_statement)), err)
        },
        Statement::UnsafeBlock(block) => {
            let (checked_block, err) = typecheck_block(
                block,
                scope_id,
                project,
                SafetyMode::Unsafe,
            );
            (CheckedStatement::Block(checked_block), err)
        },
        Statement::VarDecl(var_decl, init) => typecheck_var_decl(
            var_decl,
            init,
            scope_id,
            project,
            safety_mode,
        ),
        Statement::If(cond, block, else_stmt) => {
            let (checked_cond, err) = typecheck_expression(cond, scope_id, project, safety_mode);
            let mut error = err;
            let (checked_block, err) = typecheck_block(block, scope_id, project, safety_mode);
            error = or_error(error, err);
            let ghost middle = project@;
            match else_stmt {
                Some(else_stmt) => {
                    let (checked_stmt, err) = typecheck_statement(
                        else_stmt,
                        scope_id,
                        project,
                        safety_mode,
                    );
                    error = or_error(error, err);
                    proof {
                        lemma_growth_chains(old(project)@, middle, project@);
                    }
                    (
                        CheckedStatement::If(
                            checked_cond,
                            checked_block,
                            Some(Box::new(checked_stmt)),
                        ),
                        error,
                    )
                },
                None => (CheckedStatement::If(checked_cond, checked_block, None), error),
            }
        },
        Statement::While(cond, block) => {
            let (checked_cond, err) = typecheck_expression(cond, scope_id, project, safety_mode);
            let (checked_block, err2) = typecheck_block(block, scope_id, project, safety_mode);
            (CheckedStatement::While(checked_cond, checked_block), or_error(err, err2))
        },
        Statement::Return(expr) => {
            let (output, err) = typecheck_expression(expr, scope_id, project, safety_mode);
            (CheckedStatement::Return(output), err)
        },
        Statement::Block(block) => {
            let (checked_block, err) = typecheck_block(block, scope_id, project, safety_mode);
            (CheckedStatement::Block(checked_block), err)
        },
        Statement::Garbage => (CheckedStatement::Garbage, None),
    }
}

/// Checks a block in a new scope below `parent_scope_id`.
pub fn typecheck_block(
    block: &Block,
    parent_scope_id: ScopeId,
    project: &mut Project,
    safety_mode: SafetyMode,
) -> (checked: (CheckedBlock, Option<JaktError>))
    requires
        old(project)@.well_formed(),
        parent_scope_id < old(project)@.scopes.len(),
    ensures
        checked.0@ == check_block(*block, parent_scope_id, old(project)@, safety_mode).0,
        error_view(checked.1) == check_block(*block, parent_scope_id, old(project)@, safety_mode).1,
        final(project)@ == check_block(*block, parent_scope_id, old(project)@, safety_mode).2,
        final(project)@.well_formed(),
        old(project)@.grows_to(final(project)@),
        final(project)@.structs == old(project)@.structs,
        final(project)@.funs == old(project)@.funs,
        checked.0@.in_range(final(project)@.structs.len()),
    decreases block,
{
    let mut error: Option<JaktError> = None;
    let mut checked_block = CheckedBlock::new();
    let block_scope_id = project.create_scope(parent_scope_id);
    let ghost start = project@;
    proof {
        lemma_with_scope_grows(old(project)@, parent_scope_id);
    }
    let mut i: usize = 0;
    while i < block.stmts.len()
        invariant
            i <= block.stmts.len(),
            block_scope_id == old(project)@.scopes.len(),
            start == old(project)@.with_scope(parent_scope_id),
            block_scope_id < project@.scopes.len(),
            project@.well_formed(),
            old(project)@.grows_to(project@),
            project@.structs == old(project)@.structs,
            project@.funs == old(project)@.funs,
            checked_block.stmts@.len() == i,
            checked_block@.stmts == check_statements(
                block.stmts@,
                i as nat,
                block_scope_id,
                start,
                safety_mode,
            ).0,
            error_view(error) == check_statements(
                block.stmts@,
                i as nat,
                block_scope_id,
                start,
                safety_mode,
            ).1,
            project@ == check_statements(
                block.stmts@,
                i as nat,
                block_scope_id,
                start,
                safety_mode,
            ).2,
            checked_block@.in_range(project@.structs.len()),
        decreases block.stmts.len() - i,
    {
        let ghost before = project@;
        let ghost earlier = checked_block@;
        let (checked_stmt, err) = typecheck_statement(
            &block.stmts[i],
            block_scope_id,
            project,
            safety_mode,
        );
        error = or_error(error, err);
        proof {
            lemma_growth_chains(old(project)@, before, project@);
            lemma_statement_views_push(checked_block.stmts@, checked_stmt);
        }
        checked_block.stmts.push(checked_stmt);
        proof {
            assert(checked_block@.stmts == earlier.stmts.push(checked_stmt@));
            assert forall|j: int| 0 <= j < checked_block@.stmts.len() implies (
            #[trigger] checked_block@.stmts[j]).in_range(project@.structs.len()) by {
                if j < earlier.stmts.len() {
                    assert(earlier.stmts[j].in_range(project@.structs.len()));
                }
            }
        }
        i += 1;
    }
    (checked_block, error)
}

} // verus!
