//! Records, functions, and the passes over a file.
//!
//! A file is checked in four passes. The first two register every record
//! and every function signature, so that bodies may refer to declarations
//! that come later in the file or to one another. The last two check the
//! records (fields, constructors, methods) and the function bodies.

use crate::checked::{
    lemma_type_in_range, lemma_views_push, views, CheckedBlock, CheckedBlockView,
    CheckedFunction, CheckedFunctionView, CheckedParameter, CheckedParameterView,
    CheckedStatement, CheckedStatementView, CheckedStruct, CheckedStructView, CheckedVarDecl,
    CheckedVarDeclView, CheckedVariable, CheckedVariableView,
};
use crate::error::{error_view, first_error, or_error, JaktError, JaktErrorView, Span};
use crate::project::{
    bound_to, lemma_add_function, lemma_add_struct, lemma_add_var,
    lemma_found_function_exists, lemma_function_stays_findable, lemma_growth_chains,
    lemma_grows_to_itself, lemma_with_body, lemma_with_fields, lemma_with_function,
    lemma_with_scope_grows, lemma_with_struct, redefinition_error, variable_named, Project,
    ProjectView,
};
use crate::statement::{check_block, typecheck_block};
use crate::syntax::{Function, FunctionLinkage, Parameter, ParsedFile, Struct, VarDecl};
use crate::text::str_eq;
use crate::typename::{resolve_typename, typecheck_typename};
use crate::types::{FunctionId, SafetyMode, ScopeId, StructId, Type, TypeView};
use vstd::prelude::*;

verus! {

/// What a pass leaves behind: the first diagnostic it raised, and the
/// project as it stands after it.
pub type Outcome = (Option<JaktErrorView>, ProjectView);

/// The block of a function whose body has not been checked.
pub open spec fn empty_block() -> CheckedBlockView {
    CheckedBlockView { stmts: Seq::empty() }
}

/// The diagnostic for a function name that is taken in the scope already.
pub open spec fn function_redefinition(
    project: ProjectView,
    scope_id: ScopeId,
    name: Seq<char>,
    span: Span,
) -> Option<JaktErrorView> {
    if bound_to(project.scopes[scope_id as int].funs, name) is Some {
        Some(redefinition_error(name, span))
    } else {
        None
    }
}

/// The rule for one parameter. The receiver of a method of record
/// `receiver` is of that record's type and asks for no label; the type of
/// any other parameter is resolved from scope `scope_id`.
pub open spec fn check_parameter(
    param: Parameter,
    scope_id: ScopeId,
    project: ProjectView,
    receiver: Option<StructId>,
) -> (CheckedParameterView, Option<JaktErrorView>) {
    let is_receiver = receiver is Some && param.variable.name@ == "this"@;
    let resolved = if is_receiver {
        (TypeView::Struct(receiver.unwrap()), None)
    } else {
        resolve_typename(param.variable.ty, scope_id, project)
    };
    (
        CheckedParameterView {
            requires_label: param.requires_label && !is_receiver,
            variable: CheckedVariableView {
                name: param.variable.name@,
                ty: resolved.0,
                mutable: param.variable.mutable,
            },
        },
        resolved.1,
    )
}

/// The rule for the first `n` parameters of a signature, from left to right.
pub open spec fn check_parameters(
    params: Seq<Parameter>,
    n: nat,
    scope_id: ScopeId,
    project: ProjectView,
    receiver: Option<StructId>,
) -> (Seq<CheckedParameterView>, Option<JaktErrorView>)
    decreases n,
{
    if n == 0 || n > params.len() {
        (Seq::empty(), None)
    } else {
        let earlier = check_parameters(params, (n - 1) as nat, scope_id, project, receiver);
        let last = check_parameter(params[n - 1], scope_id, project, receiver);
        (earlier.0.push(last.0), first_error(earlier.1, last.1))
    }
}

/// The rule for registering a signature in scope `scope_id`: the function
/// is appended to the table with its parameters, an unknown return type and
/// an empty body, and its name is declared in the scope. A name that is
/// taken raises a diagnostic at `span`; the function is appended all the
/// same.
pub open spec fn predeclare(
    fun: Function,
    scope_id: ScopeId,
    receiver: Option<StructId>,
    span: Span,
    project: ProjectView,
) -> Outcome {
    let params = check_parameters(fun.params@, fun.params@.len(), scope_id, project, receiver);
    let signature = CheckedFunctionView {
        name: fun.name@,
        return_type: TypeView::Unknown,
        params: params.0,
        block: empty_block(),
        linkage: fun.linkage,
    };
    (
        first_error(params.1, function_redefinition(project, scope_id, fun.name@, span)),
        project.with_function(signature).add_function(
            scope_id,
            fun.name@,
            project.funs.len() as FunctionId,
        ),
    )
}

/// The rule for registering the first `n` methods of a record.
pub open spec fn predeclare_methods(
    methods: Seq<Function>,
    n: nat,
    struct_id: StructId,
    scope_id: ScopeId,
    span: Span,
    project: ProjectView,
) -> Outcome
    decreases n,
{
    if n == 0 || n > methods.len() {
        (None, project)
    } else {
        let earlier = predeclare_methods(methods, (n - 1) as nat, struct_id, scope_id, span, project);
        let last = predeclare(methods[n - 1], scope_id, Some(struct_id), span, earlier.1);
        (first_error(earlier.0, last.0), last.1)
    }
}

/// The rule for registering a record: it gets a scope of its own below
/// `parent_scope_id`, it is appended to the table without fields, its
/// methods are registered in its scope, and its name is declared in the
/// parent scope.
pub open spec fn predeclare_struct(
    structure: Struct,
    struct_id: StructId,
    parent_scope_id: ScopeId,
    project: ProjectView,
) -> Outcome {
    let scope_id = project.scopes.len() as ScopeId;
    let record = CheckedStructView {
        name: structure.name@,
        fields: Seq::empty(),
        scope_id,
        definition_linkage: structure.definition_linkage,
        definition_type: structure.definition_type,
    };
    let methods = predeclare_methods(
        structure.methods@,
        structure.methods@.len(),
        struct_id,
        scope_id,
        structure.span,
        project.with_scope(parent_scope_id).with_struct(record),
    );
    let redefinition = if bound_to(
        methods.1.scopes[parent_scope_id as int].structs,
        structure.name@,
    ) is Some {
        Some(redefinition_error(structure.name@, structure.span))
    } else {
        None
    };
    (
        first_error(methods.0, redefinition),
        methods.1.add_struct(parent_scope_id, structure.name@, struct_id),
    )
}

/// The rule for declaring the first `n` parameters of a function as
/// variables of its scope.
pub open spec fn declare_parameters(
    params: Seq<CheckedParameterView>,
    n: nat,
    scope_id: ScopeId,
    span: Span,
    project: ProjectView,
) -> Outcome
    decreases n,
{
    if n == 0 || n > params.len() {
        (None, project)
    } else {
        let earlier = declare_parameters(params, (n - 1) as nat, scope_id, span, project);
        let variable = params[n - 1].variable;
        let redefinition = if variable_named(
            earlier.1.scopes[scope_id as int].vars,
            variable.name,
        ) is Some {
            Some(redefinition_error(variable.name, span))
        } else {
            None
        };
        (first_error(earlier.0, redefinition), earlier.1.add_var(scope_id, variable))
    }
}

/// The return type of a function: the written one where it resolves to
/// something; else the type of the returned expression where the body
/// starts with a `return`; else `Void`.
pub open spec fn return_type_of(written: TypeView, block: CheckedBlockView) -> TypeView {
    if !(written is Unknown) {
        written
    } else if block.stmts.len() > 0 && block.stmts[0] is Return {
        block.stmts[0]->Return_0.ty()
    } else {
        TypeView::Void
    }
}

/// The rule for the body of function `function_id`: a scope is created
/// below `parent_scope_id`, the parameters are declared in it, the body is
/// checked there in safe mode, the written return type is resolved from the
/// parent scope, and the function is given its body and return type.
pub open spec fn check_function_body(
    fun: Function,
    function_id: FunctionId,
    parent_scope_id: ScopeId,
    project: ProjectView,
) -> Outcome {
    let scope_id = project.scopes.len() as ScopeId;
    let declared = declare_parameters(
        project.funs[function_id as int].params,
        project.funs[function_id as int].params.len(),
        scope_id,
        fun.name_span,
        project.with_scope(parent_scope_id),
    );
    let block = check_block(fun.block, scope_id, declared.1, SafetyMode::Safe);
    let written = resolve_typename(fun.return_type, parent_scope_id, block.2);
    (
        first_error(first_error(declared.0, block.1), written.1),
        block.2.with_body(function_id, block.0, return_type_of(written.0, block.0)),
    )
}

/// The rule for the body of a free function: the function is the one that
/// its name refers to from `parent_scope_id`.
pub open spec fn check_function(
    fun: Function,
    parent_scope_id: ScopeId,
    project: ProjectView,
) -> Outcome {
    check_function_body(
        fun,
        project.find_function_in_scope(parent_scope_id, fun.name@).unwrap(),
        parent_scope_id,
        project,
    )
}

/// The rule for the body of a method of record `struct_id`: the method is
/// the one that its name refers to from the record's scope.
pub open spec fn check_method(
    fun: Function,
    parent_scope_id: ScopeId,
    project: ProjectView,
    struct_id: StructId,
) -> Outcome {
    check_function_body(
        fun,
        project.find_function_in_scope(
            project.structs[struct_id as int].scope_id,
            fun.name@,
        ).unwrap(),
        parent_scope_id,
        project,
    )
}

/// The rule for the first `n` fields of a record.
pub open spec fn check_fields(
    fields: Seq<VarDecl>,
    n: nat,
    scope_id: ScopeId,
    project: ProjectView,
) -> (Seq<CheckedVarDeclView>, Option<JaktErrorView>)
    decreases n,
{
    if n == 0 || n > fields.len() {
        (Seq::empty(), None)
    } else {
        let earlier = check_fields(fields, (n - 1) as nat, scope_id, project);
        let field = fields[n - 1];
        let resolved = resolve_typename(field.ty, scope_id, project);
        (
            earlier.0.push(
                CheckedVarDeclView {
                    name: field.name@,
                    ty: resolved.0,
                    mutable: field.mutable,
                    span: field.span,
                },
            ),
            first_error(earlier.1, resolved.1),
        )
    }
}

/// The parameters of a record's constructor: one per field, in order, each
/// asking for its label.
pub open spec fn constructor_params(fields: Seq<CheckedVarDeclView>) -> Seq<CheckedParameterView> {
    Seq::new(
        fields.len(),
        |i: int| CheckedParameterView { requires_label: true, variable: fields[i].variable() },
    )
}

/// The constructor that every record gets: named like the record, taking
/// the fields, returning the record.
pub open spec fn constructor_of(
    name: Seq<char>,
    struct_id: StructId,
    fields: Seq<CheckedVarDeclView>,
) -> CheckedFunctionView {
    CheckedFunctionView {
        name,
        return_type: TypeView::Struct(struct_id),
        params: constructor_params(fields),
        block: empty_block(),
        linkage: FunctionLinkage::ImplicitConstructor,
    }
}

/// The rule for the bodies of the first `n` methods of record `struct_id`.
pub open spec fn check_methods(
    methods: Seq<Function>,
    n: nat,
    struct_id: StructId,
    scope_id: ScopeId,
    project: ProjectView,
) -> Outcome
    decreases n,
{
    if n == 0 || n > methods.len() {
        (None, project)
    } else {
        let earlier = check_methods(methods, (n - 1) as nat, struct_id, scope_id, project);
        let last = check_method(methods[n - 1], scope_id, earlier.1, struct_id);
        (first_error(earlier.0, last.0), last.1)
    }
}

/// The rule for a registered record: its field types are resolved from the
/// parent scope and given to the record, its constructor is appended to the
/// table and declared both in the record's scope and in the parent scope,
/// and the bodies of its methods are checked.
pub open spec fn check_struct(
    structure: Struct,
    struct_id: StructId,
    parent_scope_id: ScopeId,
    project: ProjectView,
) -> Outcome {
    let fields = check_fields(
        structure.fields@,
        structure.fields@.len(),
        parent_scope_id,
        project,
    );
    let scope_id = project.structs[struct_id as int].scope_id;
    let constructor_id = project.funs.len() as FunctionId;
    let appended = project.with_fields(struct_id, fields.0).with_function(
        constructor_of(structure.name@, struct_id, fields.0),
    );
    let inner = function_redefinition(appended, scope_id, structure.name@, structure.span);
    let declared_inside = appended.add_function(scope_id, structure.name@, constructor_id);
    let outer = function_redefinition(
        declared_inside,
        parent_scope_id,
        structure.name@,
        structure.span,
    );
    let declared_outside = declared_inside.add_function(
        parent_scope_id,
        structure.name@,
        constructor_id,
    );
    let methods = check_methods(
        structure.methods@,
        structure.methods@.len(),
        struct_id,
        scope_id,
        declared_outside,
    );
    (first_error(first_error(first_error(fields.1, inner), outer), methods.0), methods.1)
}

/// The first pass over the first `n` records of a file. Records get
/// consecutive ids from `base` on.
pub open spec fn predeclare_structs(
    structs: Seq<Struct>,
    n: nat,
    base: nat,
    scope_id: ScopeId,
    project: ProjectView,
) -> Outcome
    decreases n,
{
    if n == 0 || n > structs.len() {
        (None, project)
    } else {
        let earlier = predeclare_structs(structs, (n - 1) as nat, base, scope_id, project);
        let last = predeclare_struct(
            structs[n - 1],
            (base + n - 1) as StructId,
            scope_id,
            earlier.1,
        );
        (first_error(earlier.0, last.0), last.1)
    }
}

/// The second pass over the first `n` functions of a file.
pub open spec fn predeclare_functions(
    funs: Seq<Function>,
    n: nat,
    scope_id: ScopeId,
    project: ProjectView,
) -> Outcome
    decreases n,
{
    if n == 0 || n > funs.len() {
        (None, project)
    } else {
        let earlier = predeclare_functions(funs, (n - 1) as nat, scope_id, project);
        let last = predeclare(funs[n - 1], scope_id, None, funs[n - 1].name_span, earlier.1);
        (first_error(earlier.0, last.0), last.1)
    }
}

/// The third pass over the first `n` records of a file.
pub open spec fn check_structs(
    structs: Seq<Struct>,
    n: nat,
    base: nat,
    scope_id: ScopeId,
    project: ProjectView,
) -> Outcome
    decreases n,
{
    if n == 0 || n > structs.len() {
        (None, project)
    } else {
        let earlier = check_structs(structs, (n - 1) as nat, base, scope_id, project);
        let last = check_struct(structs[n - 1], (base + n - 1) as StructId, scope_id, earlier.1);
        (first_error(earlier.0, last.0), last.1)
    }
}

/// The fourth pass over the first `n` functions of a file.
pub open spec fn check_functions(
    funs: Seq<Function>,
    n: nat,
    scope_id: ScopeId,
    project: ProjectView,
) -> Outcome
    decreases n,
{
    if n == 0 || n > funs.len() {
        (None, project)
    } else {
        let earlier = check_functions(funs, (n - 1) as nat, scope_id, project);
        let last = check_function(funs[n - 1], scope_id, earlier.1);
        (first_error(earlier.0, last.0), last.1)
    }
}

/// The rule for a file: the four passes in order, each on the project that
/// the one before it left, and the first diagnostic raised by any of them.
pub open spec fn check_file(file: ParsedFile, scope_id: ScopeId, project: ProjectView) -> Outcome {
    let base = project.structs.len();
    let first = predeclare_structs(file.structs@, file.structs@.len(), base, scope_id, project);
    let second = predeclare_functions(file.funs@, file.funs@.len(), scope_id, first.1);
    let third = check_structs(file.structs@, file.structs@.len(), base, scope_id, second.1);
    let fourth = check_functions(file.funs@, file.funs@.len(), scope_id, third.1);
    (first_error(first_error(first_error(first.0, second.0), third.0), fourth.0), fourth.1)
}


/// Every method of the record can be found by name from the scope of
/// record `struct_id`.
pub open spec fn methods_findable(
    structure: Struct,
    struct_id: StructId,
    project: ProjectView,
) -> bool {
    &&& struct_id < project.structs.len()
    &&& forall|j: int|
        0 <= j < structure.methods@.len() ==> project.find_function_in_scope(
            project.structs[struct_id as int].scope_id,
            (#[trigger] structure.methods@[j]).name@,
        ) is Some
}

/// Methods that can be found can still be found after the project has
/// grown.
pub proof fn lemma_methods_stay_findable(
    structure: Struct,
    struct_id: StructId,
    project: ProjectView,
    later: ProjectView,
)
    requires
        methods_findable(structure, struct_id, project),
        project.grows_to(later),
    ensures
        methods_findable(structure, struct_id, later),
{
    assert(project.structs[struct_id as int].scope_id == later.structs[struct_id as int].scope_id);
    assert forall|j: int| 0 <= j < structure.methods@.len() implies later.find_function_in_scope(
        later.structs[struct_id as int].scope_id,
        (#[trigger] structure.methods@[j]).name@,
    ) is Some by {
        lemma_function_stays_findable(
            project,
            later,
            project.structs[struct_id as int].scope_id,
            structure.methods@[j].name@,
        );
    }
}

/// Resolves the parameters of a signature from left to right.
fn typecheck_parameters(
    params: &Vec<Parameter>,
    scope_id: ScopeId,
    project: &Project,
    receiver: Option<StructId>,
) -> (checked: (Vec<CheckedParameter>, Option<JaktError>))
    requires
        project@.well_formed(),
        scope_id < project@.scopes.len(),
        receiver matches Some(id) ==> id < project@.structs.len(),
    ensures
        views(checked.0@) == check_parameters(
            params@,
            params@.len(),
            scope_id,
            project@,
            receiver,
        ).0,
        error_view(checked.1) == check_parameters(
            params@,
            params@.len(),
            scope_id,
            project@,
            receiver,
        ).1,
        forall|i: int|
            0 <= i < checked.0@.len() ==> (#[trigger] views(checked.0@)[i]).variable.ty.in_range(
                project@.structs.len(),
            ),
{
    let mut error: Option<JaktError> = None;
    let mut checked_params: Vec<CheckedParameter> = Vec::new();
    let mut i: usize = 0;
    assert(views(checked_params@) =~= Seq::empty());
    while i < params.len()
        invariant
            i <= params.len(),
            project@.well_formed(),
            scope_id < project@.scopes.len(),
            receiver matches Some(id) ==> id < project@.structs.len(),
            checked_params@.len() == i,
            views(checked_params@) == check_parameters(
                params@,
                i as nat,
                scope_id,
                project@,
                receiver,
            ).0,
            error_view(error) == check_parameters(
                params@,
                i as nat,
                scope_id,
                project@,
                receiver,
            ).1,
            forall|j: int|
                0 <= j < checked_params@.len() ==> (#[trigger] views(
                    checked_params@,
                )[j]).variable.ty.in_range(project@.structs.len()),
        decreases params.len() - i,
    {
        let param = &params[i];
        let is_receiver = match receiver {
            Some(_) => str_eq(param.variable.name.as_str(), "this"),
            None => false,
        };
        let ty = if is_receiver {
            match receiver {
                Some(struct_id) => Type::Struct(struct_id),
                None => Type::Unknown,
            }
        } else {
            let (param_type, err) = typecheck_typename(&param.variable.ty, scope_id, project);
            error = or_error(error, err);
            param_type
        };
        let checked_param = CheckedParameter {
            requires_label: param.requires_label && !is_receiver,
            variable: CheckedVariable {
                name: param.variable.name.clone(),
                ty,
                mutable: param.variable.mutable,
            },
        };
        proof {
            lemma_views_push(checked_params@, checked_param);
        }
        checked_params.push(checked_param);
        i += 1;
    }
    (checked_params, error)
}

/// Appends the signature of `fun` to the table of functions and declares
/// its name in scope `scope_id`.
fn register_signature(
    fun: &Function,
    scope_id: ScopeId,
    receiver: Option<StructId>,
    span: Span,
    project: &mut Project,
) -> (error: Option<JaktError>)
    requires
        old(project)@.well_formed(),
        scope_id < old(project)@.scopes.len(),
        receiver matches Some(id) ==> id < old(project)@.structs.len(),
    ensures
        error_view(error) == predeclare(*fun, scope_id, receiver, span, old(project)@).0,
        final(project)@ == predeclare(*fun, scope_id, receiver, span, old(project)@).1,
        final(project)@.well_formed(),
        old(project)@.grows_to(final(project)@),
        final(project)@.structs == old(project)@.structs,
        final(project)@.scopes.len() == old(project)@.scopes.len(),
        final(project)@.find_function_in_scope(scope_id, fun.name@) is Some,
{
    let (params, err) = typecheck_parameters(&fun.params, scope_id, project, receiver);
    let mut error = err;
    let checked_function = CheckedFunction {
        name: fun.name.clone(),
        params,
        return_type: Type::Unknown,
        block: CheckedBlock::new(),
        linkage: fun.linkage,
    };
    let function_id = project.funs.len();
    proof {
        assert(checked_function@.block == empty_block());
        assert(checked_function@.well_formed(project@.structs.len()));
        lemma_with_function(project@, checked_function@);
        lemma_views_push(project.funs@, checked_function);
    }
    project.funs.push(checked_function);
    assert(project@ == old(project)@.with_function(checked_function@));
    proof {
        lemma_add_function(project@, scope_id, fun.name@, function_id);
        lemma_growth_chains(
            old(project)@,
            project@,
            project@.add_function(scope_id, fun.name@, function_id),
        );
    }
    match project.add_function_to_scope(scope_id, fun.name.clone(), function_id, span) {
        Ok(_) => {},
        Err(err) => {
            error = or_error(error, Some(err));
        },
    }
    error
}

/// Registers a free function in scope `parent_scope_id`.
pub fn typecheck_fun_predecl(fun: &Function, parent_scope_id: ScopeId, project: &mut Project) -> (error:
    Option<JaktError>)
    requires
        old(project)@.well_formed(),
        parent_scope_id < old(project)@.scopes.len(),
    ensures
        error_view(error) == predeclare(
            *fun,
            parent_scope_id,
            None,
            fun.name_span,
            old(project)@,
        ).0,
        final(project)@ == predeclare(*fun, parent_scope_id, None, fun.name_span, old(project)@).1,
        final(project)@.well_formed(),
        old(project)@.grows_to(final(project)@),
        final(project)@.structs == old(project)@.structs,
        final(project)@.scopes.len() == old(project)@.scopes.len(),
        final(project)@.find_function_in_scope(parent_scope_id, fun.name@) is Some,
{
    register_signature(fun, parent_scope_id, None, fun.name_span, project)
}

/// Registers a record, which becomes record `struct_id`, and its methods.
pub fn typecheck_struct_predecl(
    structure: &Struct,
    struct_id: StructId,
    parent_scope_id: ScopeId,
    project: &mut Project,
) -> (error: Option<JaktError>)
    requires
        old(project)@.well_formed(),
        parent_scope_id < old(project)@.scopes.len(),
        struct_id == old(project)@.structs.len(),
    ensures
        error_view(error) == predeclare_struct(
            *structure,
            struct_id,
            parent_scope_id,
            old(project)@,
        ).0,
        final(project)@ == predeclare_struct(
            *structure,
            struct_id,
            parent_scope_id,
            old(project)@,
        ).1,
        final(project)@.well_formed(),
        old(project)@.grows_to(final(project)@),
        final(project)@.structs.len() == old(project)@.structs.len() + 1,
        methods_findable(*structure, struct_id, final(project)@),
{
    let mut error: Option<JaktError> = None;
    let struct_scope_id = project.create_scope(parent_scope_id);
    let ghost scoped = project@;
    proof {
        lemma_with_scope_grows(old(project)@, parent_scope_id);
    }
    let record = CheckedStruct {
        name: structure.name.clone(),
        fields: Vec::new(),
        scope_id: struct_scope_id,
        definition_linkage: structure.definition_linkage,
        definition_type: structure.definition_type,
    };
    proof {
        assert(record@.fields =~= Seq::empty());
        assert(record@.well_formed(project@.structs.len() + 1, project@.scopes.len()));
        lemma_with_struct(project@, record@);
        lemma_views_push(project.structs@, record);
    }
    project.structs.push(record);
    let ghost start = project@;
    proof {
        assert(start == scoped.with_struct(record@));
        lemma_growth_chains(old(project)@, scoped, start);
    }
    let mut i: usize = 0;
    while i < structure.methods.len()
        invariant
            i <= structure.methods.len(),
            project@.well_formed(),
            old(project)@.grows_to(project@),
            start.grows_to(project@),
            struct_scope_id < project@.scopes.len(),
            struct_scope_id == old(project)@.scopes.len(),
            parent_scope_id < project@.scopes.len(),
            struct_id == old(project)@.structs.len(),
            project@.structs == start.structs,
            start.structs.len() == old(project)@.structs.len() + 1,
            start.structs[struct_id as int].scope_id == struct_scope_id,
            error_view(error) == predeclare_methods(
                structure.methods@,
                i as nat,
                struct_id,
                struct_scope_id,
                structure.span,
                start,
            ).0,
            project@ == predeclare_methods(
                structure.methods@,
                i as nat,
                struct_id,
                struct_scope_id,
                structure.span,
                start,
            ).1,
            forall|j: int|
                0 <= j < i ==> project@.find_function_in_scope(
                    struct_scope_id,
                    (#[trigger] structure.methods@[j]).name@,
                ) is Some,
        decreases structure.methods.len() - i,
    {
        let ghost before = project@;
        let err = register_signature(
            &structure.methods[i],
            struct_scope_id,
            Some(struct_id),
            structure.span,
            project,
        );
        error = or_error(error, err);
        proof {
            lemma_growth_chains(old(project)@, before, project@);
            lemma_growth_chains(start, before, project@);
            assert forall|j: int| 0 <= j < i + 1 implies project@.find_function_in_scope(
                struct_scope_id,
                (#[trigger] structure.methods@[j]).name@,
            ) is Some by {
                if j < i {
                    lemma_function_stays_findable(
                        before,
                        project@,
                        struct_scope_id,
                        structure.methods@[j].name@,
                    );
                }
            }
        }
        i += 1;
    }
    proof {
        lemma_add_struct(project@, parent_scope_id, structure.name@, struct_id);
        let after = project@.add_struct(parent_scope_id, structure.name@, struct_id);
        lemma_growth_chains(old(project)@, project@, after);
        assert(methods_findable(*structure, struct_id, project@));
        lemma_methods_stay_findable(*structure, struct_id, project@, after);
    }
    match project.add_struct_to_scope(
        parent_scope_id,
        structure.name.clone(),
        struct_id,
        structure.span,
    ) {
        Ok(_) => {},
        Err(err) => {
            error = or_error(error, Some(err));
        },
    }
    error
}


/// Declares the parameters of function `function_id` as variables of scope
/// `scope_id`.
fn declare_function_parameters(
    function_id: FunctionId,
    scope_id: ScopeId,
    span: Span,
    project: &mut Project,
) -> (error: Option<JaktError>)
    requires
        old(project)@.well_formed(),
        function_id < old(project)@.funs.len(),
        scope_id < old(project)@.scopes.len(),
    ensures
        error_view(error) == declare_parameters(
            old(project)@.funs[function_id as int].params,
            old(project)@.funs[function_id as int].params.len(),
            scope_id,
            span,
            old(project)@,
        ).0,
        final(project)@ == declare_parameters(
            old(project)@.funs[function_id as int].params,
            old(project)@.funs[function_id as int].params.len(),
            scope_id,
            span,
            old(project)@,
        ).1,
        final(project)@.well_formed(),
        old(project)@.grows_to(final(project)@),
        final(project)@.structs == old(project)@.structs,
        final(project)@.funs == old(project)@.funs,
        final(project)@.scopes.len() == old(project)@.scopes.len(),
{
    let mut error: Option<JaktError> = None;
    let ghost params = project@.funs[function_id as int].params;
    let count = project.funs[function_id].params.len();
    proof {
        lemma_grows_to_itself(project@);
    }
    let mut i: usize = 0;
    while i < count
        invariant
            i <= count,
            count == params.len(),
            project@.well_formed(),
            function_id < project@.funs.len(),
            scope_id < project@.scopes.len(),
            old(project)@.grows_to(project@),
            project@.structs == old(project)@.structs,
            project@.funs == old(project)@.funs,
            project@.scopes.len() == old(project)@.scopes.len(),
            params == old(project)@.funs[function_id as int].params,
            error_view(error) == declare_parameters(
                params,
                i as nat,
                scope_id,
                span,
                old(project)@,
            ).0,
            project@ == declare_parameters(params, i as nat, scope_id, span, old(project)@).1,
        decreases count - i,
    {
        let ghost before = project@;
        assert(project@.funs[function_id as int] == project.funs@[function_id as int]@);
        assert(project.funs@[function_id as int]@.params[i as int]
            == project.funs@[function_id as int].params@[i as int]@);
        let variable = project.funs[function_id].params[i].variable.clone();
        proof {
            assert(variable@ == params[i as int].variable);
            assert(project@.funs[function_id as int].well_formed(project@.structs.len()));
            lemma_add_var(project@, scope_id, variable@);
            lemma_growth_chains(old(project)@, before, before.add_var(scope_id, variable@));
        }
        match project.add_var_to_scope(scope_id, variable, span) {
            Ok(_) => {},
            Err(err) => {
                error = or_error(error, Some(err));
            },
        }
        i += 1;
    }
    error
}

/// The return type of a function with the given written type and body.
fn infer_return_type(written: Type, block: &CheckedBlock, Ghost(records): Ghost<nat>) -> (ty: Type)
    requires
        written@.in_range(records),
        block@.in_range(records),
    ensures
        ty@ == return_type_of(written@, block@),
        ty@.in_range(records),
{
    if !written.is_unknown() {
        return written;
    }
    if block.stmts.len() > 0 {
        assert(block@.stmts[0] == block.stmts@[0]@);
        assert(block@.stmts[0].in_range(records));
        match &block.stmts[0] {
            CheckedStatement::Return(ret) => {
                proof {
                    lemma_type_in_range(ret@, records);
                }
                ret.ty()
            },
            _ => Type::Void,
        }
    } else {
        Type::Void
    }
}

/// Checks the body of function `function_id` in a new scope below
/// `parent_scope_id`.
fn typecheck_body(
    fun: &Function,
    function_id: FunctionId,
    parent_scope_id: ScopeId,
    project: &mut Project,
) -> (error: Option<JaktError>)
    requires
        old(project)@.well_formed(),
        function_id < old(project)@.funs.len(),
        parent_scope_id < old(project)@.scopes.len(),
    ensures
        error_view(error) == check_function_body(
            *fun,
            function_id,
            parent_scope_id,
            old(project)@,
        ).0,
        final(project)@ == check_function_body(
            *fun,
            function_id,
            parent_scope_id,
            old(project)@,
        ).1,
        final(project)@.well_formed(),
        old(project)@.grows_to(final(project)@),
        final(project)@.structs == old(project)@.structs,
        final(project)@.funs.len() == old(project)@.funs.len(),
{
    let function_scope_id = project.create_scope(parent_scope_id);
    let ghost scoped = project@;
    proof {
        lemma_with_scope_grows(old(project)@, parent_scope_id);
    }
    let mut error = declare_function_parameters(
        function_id,
        function_scope_id,
        fun.name_span,
        project,
    );
    let ghost declared = project@;
    let (block, err) = typecheck_block(&fun.block, function_scope_id, project, SafetyMode::Safe);
    error = or_error(error, err);
    let ghost checked = project@;
    let (fun_return_type, err) = typecheck_typename(&fun.return_type, parent_scope_id, project);
    error = or_error(error, err);
    let return_type = infer_return_type(fun_return_type, &block, Ghost(project@.structs.len()));
    proof {
        lemma_growth_chains(old(project)@, scoped, declared);
        lemma_growth_chains(old(project)@, declared, checked);
        lemma_with_body(checked, function_id, block@, return_type@);
        lemma_growth_chains(
            old(project)@,
            checked,
            checked.with_body(function_id, block@, return_type@),
        );
    }
    let ghost block_view = block@;
    let ghost return_view = return_type@;
    project.funs[function_id].block = block;
    project.funs[function_id].return_type = return_type;
    proof {
        assert(project@.funs =~= checked.with_body(function_id, block_view, return_view).funs);
        assert(project@.structs == checked.structs);
        assert(project@.scopes == checked.scopes);
    }
    error
}

/// Checks the body of a free function that has been registered in scope
/// `parent_scope_id`.
pub fn typecheck_fun(fun: &Function, parent_scope_id: ScopeId, project: &mut Project) -> (error:
    Option<JaktError>)
    requires
        old(project)@.well_formed(),
        parent_scope_id < old(project)@.scopes.len(),
        old(project)@.find_function_in_scope(parent_scope_id, fun.name@) is Some,
    ensures
        error_view(error) == check_function(*fun, parent_scope_id, old(project)@).0,
        final(project)@ == check_function(*fun, parent_scope_id, old(project)@).1,
        final(project)@.well_formed(),
        old(project)@.grows_to(final(project)@),
        final(project)@.structs == old(project)@.structs,
        final(project)@.funs.len() == old(project)@.funs.len(),
{
    proof {
        lemma_found_function_exists(project@, parent_scope_id, fun.name@);
    }
    let function_id = project.find_function_in_scope(parent_scope_id, fun.name.as_str()).unwrap();
    typecheck_body(fun, function_id, parent_scope_id, project)
}

/// Checks the body of a method that has been registered in the scope of
/// record `struct_id`.
pub fn typecheck_method(
    fun: &Function,
    parent_scope_id: ScopeId,
    project: &mut Project,
    struct_id: StructId,
) -> (error: Option<JaktError>)
    requires
        old(project)@.well_formed(),
        parent_scope_id < old(project)@.scopes.len(),
        struct_id < old(project)@.structs.len(),
        old(project)@.find_function_in_scope(
            old(project)@.structs[struct_id as int].scope_id,
            fun.name@,
        ) is Some,
    ensures
        error_view(error) == check_method(*fun, parent_scope_id, old(project)@, struct_id).0,
        final(project)@ == check_method(*fun, parent_scope_id, old(project)@, struct_id).1,
        final(project)@.well_formed(),
        old(project)@.grows_to(final(project)@),
        final(project)@.structs == old(project)@.structs,
        final(project)@.funs.len() == old(project)@.funs.len(),
{
    assert(project@.structs[struct_id as int].well_formed(
        project@.structs.len(),
        project@.scopes.len(),
    ));
    let structure_scope_id = project.structs[struct_id].scope_id;
    proof {
        lemma_found_function_exists(project@, structure_scope_id, fun.name@);
    }
    let method_id = project.find_function_in_scope(structure_scope_id, fun.name.as_str()).unwrap();
    typecheck_body(fun, method_id, parent_scope_id, project)
}


/// Resolves the types of the fields of a record.
fn typecheck_fields(fields: &Vec<VarDecl>, scope_id: ScopeId, project: &Project) -> (checked: (
    Vec<CheckedVarDecl>,
    Option<JaktError>,
))
    requires
        project@.well_formed(),
        scope_id < project@.scopes.len(),
    ensures
        views(checked.0@) == check_fields(fields@, fields@.len(), scope_id, project@).0,
        error_view(checked.1) == check_fields(fields@, fields@.len(), scope_id, project@).1,
        forall|i: int|
            0 <= i < checked.0@.len() ==> (#[trigger] views(checked.0@)[i]).ty.in_range(
                project@.structs.len(),
            ),
{
    let mut error: Option<JaktError> = None;
    let mut checked_fields: Vec<CheckedVarDecl> = Vec::new();
    let mut i: usize = 0;
    assert(views(checked_fields@) =~= Seq::empty());
    while i < fields.len()
        invariant
            i <= fields.len(),
            project@.well_formed(),
            scope_id < project@.scopes.len(),
            checked_fields@.len() == i,
            views(checked_fields@) == check_fields(fields@, i as nat, scope_id, project@).0,
            error_view(error) == check_fields(fields@, i as nat, scope_id, project@).1,
            forall|j: int|
                0 <= j < checked_fields@.len() ==> (#[trigger] views(
                    checked_fields@,
                )[j]).ty.in_range(project@.structs.len()),
        decreases fields.len() - i,
    {
        let unchecked_member = &fields[i];
        let (checked_member_type, err) = typecheck_typename(
            &unchecked_member.ty,
            scope_id,
            project,
        );
        error = or_error(error, err);
        let checked_field = CheckedVarDecl {
            name: unchecked_member.name.clone(),
            ty: checked_member_type,
            mutable: unchecked_member.mutable,
            span: unchecked_member.span,
        };
        proof {
            lemma_views_push(checked_fields@, checked_field);
        }
        checked_fields.push(checked_field);
        i += 1;
    }
    (checked_fields, error)
}

/// The parameters of the constructor of a record with the given fields.
fn make_constructor_params(fields: &Vec<CheckedVarDecl>) -> (params: Vec<CheckedParameter>)
    ensures
        views(params@) == constructor_params(views(fields@)),
{
    let mut params: Vec<CheckedParameter> = Vec::new();
    let mut i: usize = 0;
    while i < fields.len()
        invariant
            i <= fields.len(),
            params@.len() == i,
            forall|j: int|
                0 <= j < i ==> (#[trigger] params@[j])@ == constructor_params(views(fields@))[j],
        decreases fields.len() - i,
    {
        let field = &fields[i];
        params.push(
            CheckedParameter {
                requires_label: true,
                variable: CheckedVariable {
                    name: field.name.clone(),
                    ty: field.ty.clone(),
                    mutable: field.mutable,
                },
            },
        );
        i += 1;
    }
    assert(views(params@) =~= constructor_params(views(fields@)));
    params
}

/// Checks record `struct_id`, which has been registered: its fields, its
/// constructor and the bodies of its methods.
pub fn typecheck_struct(
    structure: &Struct,
    struct_id: StructId,
    parent_scope_id: ScopeId,
    project: &mut Project,
) -> (error: Option<JaktError>)
    requires
        old(project)@.well_formed(),
        parent_scope_id < old(project)@.scopes.len(),
        methods_findable(*structure, struct_id, old(project)@),
    ensures
        error_view(error) == check_struct(*structure, struct_id, parent_scope_id, old(project)@).0,
        final(project)@ == check_struct(*structure, struct_id, parent_scope_id, old(project)@).1,
        final(project)@.well_formed(),
        old(project)@.grows_to(final(project)@),
        final(project)@.structs.len() == old(project)@.structs.len(),
{
    let (fields, err) = typecheck_fields(&structure.fields, parent_scope_id, project);
    let mut error = err;
    let constructor_params = make_constructor_params(&fields);
    let ghost field_views = views(fields@);
    assert(project@.structs[struct_id as int].well_formed(
        project@.structs.len(),
        project@.scopes.len(),
    ));
    let checked_struct_scope_id = project.structs[struct_id].scope_id;
    proof {
        lemma_with_fields(project@, struct_id, field_views);
    }
    project.structs[struct_id].fields = fields;
    let ghost with_fields = project@;
    proof {
        assert(with_fields.structs =~= old(project)@.with_fields(struct_id, field_views).structs);
        assert(with_fields.funs == old(project)@.funs);
        assert(with_fields.scopes == old(project)@.scopes);
        assert(with_fields == old(project)@.with_fields(struct_id, field_views));
    }
    let checked_constructor = CheckedFunction {
        name: structure.name.clone(),
        block: CheckedBlock::new(),
        linkage: FunctionLinkage::ImplicitConstructor,
        params: constructor_params,
        return_type: Type::Struct(struct_id),
    };
    let constructor_id = project.funs.len();
    proof {
        assert(checked_constructor@ == constructor_of(structure.name@, struct_id, field_views));
        assert(checked_constructor@.block.in_range(project@.structs.len()));
        assert(checked_constructor@.well_formed(project@.structs.len()));
        lemma_with_function(project@, checked_constructor@);
        lemma_views_push(project.funs@, checked_constructor);
    }
    project.funs.push(checked_constructor);
    let ghost appended = project@;
    proof {
        assert(appended == with_fields.with_function(checked_constructor@));
        lemma_growth_chains(old(project)@, with_fields, appended);
        lemma_add_function(appended, checked_struct_scope_id, structure.name@, constructor_id);
    }
    match project.add_function_to_scope(
        checked_struct_scope_id,
        structure.name.clone(),
        constructor_id,
        structure.span,
    ) {
        Ok(_) => {},
        Err(err) => {
            error = or_error(error, Some(err));
        },
    }
    let ghost declared_inside = project@;
    proof {
        lemma_growth_chains(old(project)@, appended, declared_inside);
        lemma_add_function(declared_inside, parent_scope_id, structure.name@, constructor_id);
    }
    match project.add_function_to_scope(
        parent_scope_id,
        structure.name.clone(),
        constructor_id,
        structure.span,
    ) {
        Ok(_) => {},
        Err(err) => {
            error = or_error(error, Some(err));
        },
    }
    let ghost start = project@;
    proof {
        lemma_growth_chains(old(project)@, declared_inside, start);
        lemma_methods_stay_findable(*structure, struct_id, old(project)@, start);
    }
    let mut method_error: Option<JaktError> = None;
    let mut i: usize = 0;
    while i < structure.methods.len()
        invariant
            i <= structure.methods.len(),
            project@.well_formed(),
            old(project)@.grows_to(project@),
            start.grows_to(project@),
            parent_scope_id < project@.scopes.len(),
            checked_struct_scope_id < project@.scopes.len(),
            project@.structs.len() == old(project)@.structs.len(),
            methods_findable(*structure, struct_id, project@),
            project@.structs[struct_id as int].scope_id == checked_struct_scope_id,
            error_view(method_error) == check_methods(
                structure.methods@,
                i as nat,
                struct_id,
                checked_struct_scope_id,
                start,
            ).0,
            project@ == check_methods(
                structure.methods@,
                i as nat,
                struct_id,
                checked_struct_scope_id,
                start,
            ).1,
        decreases structure.methods.len() - i,
    {
        let ghost before = project@;
        let err = typecheck_method(
            &structure.methods[i],
            checked_struct_scope_id,
            project,
            struct_id,
        );
        method_error = or_error(method_error, err);
        proof {
            lemma_growth_chains(old(project)@, before, project@);
            lemma_growth_chains(start, before, project@);
            lemma_methods_stay_findable(*structure, struct_id, before, project@);
        }
        i += 1;
    }
    or_error(error, method_error)
}

/// Every function of the file can be found by name from scope `scope_id`.
pub open spec fn functions_findable(
    funs: Seq<Function>,
    n: nat,
    scope_id: ScopeId,
    project: ProjectView,
) -> bool {
    forall|j: int|
        0 <= j < n && j < funs.len() ==> project.find_function_in_scope(
            scope_id,
            (#[trigger] funs[j]).name@,
        ) is Some
}

/// The methods of each of the first `n` records of the file can be found
/// from the record's scope.
pub open spec fn records_findable(
    structs: Seq<Struct>,
    n: nat,
    base: nat,
    project: ProjectView,
) -> bool {
    forall|k: int|
        0 <= k < n && k < structs.len() ==> methods_findable(
            #[trigger] structs[k],
            (base + k) as StructId,
            project,
        )
}

/// What can be found can still be found after the project has grown.
pub proof fn lemma_file_stays_findable(
    file: ParsedFile,
    records: nat,
    functions: nat,
    base: nat,
    scope_id: ScopeId,
    project: ProjectView,
    later: ProjectView,
)
    requires
        project.grows_to(later),
        records_findable(file.structs@, records, base, project),
        functions_findable(file.funs@, functions, scope_id, project),
    ensures
        records_findable(file.structs@, records, base, later),
        functions_findable(file.funs@, functions, scope_id, later),
{
    assert forall|k: int| 0 <= k < records && k < file.structs@.len() implies methods_findable(
        #[trigger] file.structs@[k],
        (base + k) as StructId,
        later,
    ) by {
        lemma_methods_stay_findable(file.structs@[k], (base + k) as StructId, project, later);
    }
    assert forall|j: int|
        0 <= j < functions && j < file.funs@.len() implies later.find_function_in_scope(
        scope_id,
        (#[trigger] file.funs@[j]).name@,
    ) is Some by {
        lemma_function_stays_findable(project, later, scope_id, file.funs@[j].name@);
    }
}

/// The first pass: registers every record of the file.
fn predeclare_all_structs(parsed_file: &ParsedFile, scope_id: ScopeId, project: &mut Project) -> (error:
    Option<JaktError>)
    requires
        old(project)@.well_formed(),
        scope_id < old(project)@.scopes.len(),
    ensures
        error_view(error) == predeclare_structs(
            parsed_file.structs@,
            parsed_file.structs@.len(),
            old(project)@.structs.len(),
            scope_id,
            old(project)@,
        ).0,
        final(project)@ == predeclare_structs(
            parsed_file.structs@,
            parsed_file.structs@.len(),
            old(project)@.structs.len(),
            scope_id,
            old(project)@,
        ).1,
        final(project)@.well_formed(),
        old(project)@.grows_to(final(project)@),
        final(project)@.structs.len() == old(project)@.structs.len() + parsed_file.structs@.len(),
        records_findable(
            parsed_file.structs@,
            parsed_file.structs@.len(),
            old(project)@.structs.len(),
            final(project)@,
        ),
{
    let ghost start = project@;
    let ghost base = project@.structs.len();
    proof {
        lemma_grows_to_itself(project@);
    }
    let mut error: Option<JaktError> = None;
    let mut i: usize = 0;
    while i < parsed_file.structs.len()
        invariant
            i <= parsed_file.structs.len(),
            start == old(project)@,
            base == start.structs.len(),
            project@.well_formed(),
            start.grows_to(project@),
            scope_id < project@.scopes.len(),
            project@.structs.len() == base + i,
            records_findable(parsed_file.structs@, i as nat, base, project@),
            error_view(error) == predeclare_structs(
                parsed_file.structs@,
                i as nat,
                base,
                scope_id,
                start,
            ).0,
            project@ == predeclare_structs(parsed_file.structs@, i as nat, base, scope_id, start).1,
        decreases parsed_file.structs.len() - i,
    {
        let ghost before = project@;
        let struct_id = project.structs.len();
        let err = typecheck_struct_predecl(&parsed_file.structs[i], struct_id, scope_id, project);
        error = or_error(error, err);
        proof {
            lemma_growth_chains(start, before, project@);
            assert forall|k: int|
                0 <= k < i + 1 && k < parsed_file.structs@.len() implies methods_findable(
                #[trigger] parsed_file.structs@[k],
                (base + k) as StructId,
                project@,
            ) by {
                if k < i {
                    lemma_methods_stay_findable(
                        parsed_file.structs@[k],
                        (base + k) as StructId,
                        before,
                        project@,
                    );
                }
            }
        }
        i += 1;
    }
    error
}

/// The second pass: registers every function of the file.
fn predeclare_all_functions(parsed_file: &ParsedFile, scope_id: ScopeId, project: &mut Project) -> (error:
    Option<JaktError>)
    requires
        old(project)@.well_formed(),
        scope_id < old(project)@.scopes.len(),
    ensures
        error_view(error) == predeclare_functions(
            parsed_file.funs@,
            parsed_file.funs@.len(),
            scope_id,
            old(project)@,
        ).0,
        final(project)@ == predeclare_functions(
            parsed_file.funs@,
            parsed_file.funs@.len(),
            scope_id,
            old(project)@,
        ).1,
        final(project)@.well_formed(),
        old(project)@.grows_to(final(project)@),
        final(project)@.structs.len() == old(project)@.structs.len(),
        functions_findable(
            parsed_file.funs@,
            parsed_file.funs@.len(),
            scope_id,
            final(project)@,
        ),
{
    let ghost start = project@;
    proof {
        lemma_grows_to_itself(project@);
    }
    let mut error: Option<JaktError> = None;
    let mut i: usize = 0;
    while i < parsed_file.funs.len()
        invariant
            i <= parsed_file.funs.len(),
            start == old(project)@,
            project@.well_formed(),
            start.grows_to(project@),
            scope_id < project@.scopes.len(),
            project@.structs.len() == start.structs.len(),
            functions_findable(parsed_file.funs@, i as nat, scope_id, project@),
            error_view(error) == predeclare_functions(
                parsed_file.funs@,
                i as nat,
                scope_id,
                start,
            ).0,
            project@ == predeclare_functions(parsed_file.funs@, i as nat, scope_id, start).1,
        decreases parsed_file.funs.len() - i,
    {
        let ghost before = project@;
        let err = typecheck_fun_predecl(&parsed_file.funs[i], scope_id, project);
        error = or_error(error, err);
        proof {
            lemma_growth_chains(start, before, project@);
            assert forall|j: int|
                0 <= j < i + 1 && j < parsed_file.funs@.len() implies project@.find_function_in_scope(
                scope_id,
                (#[trigger] parsed_file.funs@[j]).name@,
            ) is Some by {
                if j < i {
                    lemma_function_stays_findable(
                        before,
                        project@,
                        scope_id,
                        parsed_file.funs@[j].name@,
                    );
                }
            }
        }
        i += 1;
    }
    error
}

/// The third pass: checks every record of the file. The records of the file
/// are records `base`, `base + 1`, and so on.
fn check_all_structs(
    parsed_file: &ParsedFile,
    base: usize,
    scope_id: ScopeId,
    project: &mut Project,
) -> (error: Option<JaktError>)
    requires
        old(project)@.well_formed(),
        scope_id < old(project)@.scopes.len(),
        base + parsed_file.structs@.len() <= old(project)@.structs.len(),
        records_findable(
            parsed_file.structs@,
            parsed_file.structs@.len(),
            base as nat,
            old(project)@,
        ),
    ensures
        error_view(error) == check_structs(
            parsed_file.structs@,
            parsed_file.structs@.len(),
            base as nat,
            scope_id,
            old(project)@,
        ).0,
        final(project)@ == check_structs(
            parsed_file.structs@,
            parsed_file.structs@.len(),
            base as nat,
            scope_id,
            old(project)@,
        ).1,
        final(project)@.well_formed(),
        old(project)@.grows_to(final(project)@),
{
    let ghost start = project@;
    proof {
        lemma_grows_to_itself(project@);
    }
    let mut error: Option<JaktError> = None;
    let mut i: usize = 0;
    while i < parsed_file.structs.len()
        invariant
            i <= parsed_file.structs.len(),
            start == old(project)@,
            project@.well_formed(),
            start.grows_to(project@),
            scope_id < project@.scopes.len(),
            base + parsed_file.structs@.len() <= project@.structs.len(),
            records_findable(
                parsed_file.structs@,
                parsed_file.structs@.len(),
                base as nat,
                project@,
            ),
            error_view(error) == check_structs(
                parsed_file.structs@,
                i as nat,
                base as nat,
                scope_id,
                start,
            ).0,
            project@ == check_structs(parsed_file.structs@, i as nat, base as nat, scope_id, start).1,
        decreases parsed_file.structs.len() - i,
    {
        let ghost before = project@;
        assert(project.structs.len() == project@.structs.len());
        assert(methods_findable(parsed_file.structs@[i as int], (base + i) as StructId, project@));
        let err = typecheck_struct(&parsed_file.structs[i], base + i, scope_id, project);
        error = or_error(error, err);
        proof {
            lemma_growth_chains(start, before, project@);
            assert(functions_findable(parsed_file.funs@, 0, scope_id, before));
            lemma_file_stays_findable(
                *parsed_file,
                parsed_file.structs@.len(),
                0,
                base as nat,
                scope_id,
                before,
                project@,
            );
        }
        i += 1;
    }
    error
}

/// The fourth pass: checks the body of every function of the file.
fn check_all_functions(parsed_file: &ParsedFile, scope_id: ScopeId, project: &mut Project) -> (error:
    Option<JaktError>)
    requires
        old(project)@.well_formed(),
        scope_id < old(project)@.scopes.len(),
        functions_findable(parsed_file.funs@, parsed_file.funs@.len(), scope_id, old(project)@),
    ensures
        error_view(error) == check_functions(
            parsed_file.funs@,
            parsed_file.funs@.len(),
            scope_id,
            old(project)@,
        ).0,
        final(project)@ == check_functions(
            parsed_file.funs@,
            parsed_file.funs@.len(),
            scope_id,
            old(project)@,
        ).1,
        final(project)@.well_formed(),
        old(project)@.grows_to(final(project)@),
{
    let ghost start = project@;
    proof {
        lemma_grows_to_itself(project@);
    }
    let mut error: Option<JaktError> = None;
    let mut i: usize = 0;
    while i < parsed_file.funs.len()
        invariant
            i <= parsed_file.funs.len(),
            start == old(project)@,
            project@.well_formed(),
            start.grows_to(project@),
            scope_id < project@.scopes.len(),
            functions_findable(parsed_file.funs@, parsed_file.funs@.len(), scope_id, project@),
            error_view(error) == check_functions(parsed_file.funs@, i as nat, scope_id, start).0,
            project@ == check_functions(parsed_file.funs@, i as nat, scope_id, start).1,
        decreases parsed_file.funs.len() - i,
    {
        let ghost before = project@;
        assert(project@.find_function_in_scope(scope_id, parsed_file.funs@[i as int].name@)
            is Some);
        let err = typecheck_fun(&parsed_file.funs[i], scope_id, project);
        error = or_error(error, err);
        proof {
            lemma_growth_chains(start, before, project@);
            assert(records_findable(parsed_file.structs@, 0, 0, before));
            lemma_file_stays_findable(
                *parsed_file,
                0,
                parsed_file.funs@.len(),
                0,
                scope_id,
                before,
                project@,
            );
        }
        i += 1;
    }
    error
}

/// Checks a parsed file against the project, from scope `scope_id`, and
/// returns the first diagnostic raised. The project is left with everything
/// the file declares.
pub fn typecheck_file(parsed_file: &ParsedFile, scope_id: ScopeId, project: &mut Project) -> (error:
    Option<JaktError>)
    requires
        old(project)@.well_formed(),
        scope_id < old(project)@.scopes.len(),
    ensures
        error_view(error) == check_file(*parsed_file, scope_id, old(project)@).0,
        final(project)@ == check_file(*parsed_file, scope_id, old(project)@).1,
        final(project)@.well_formed(),
        old(project)@.grows_to(final(project)@),
{
    let base = project.structs.len();
    let first = predeclare_all_structs(parsed_file, scope_id, project);
    let ghost after_first = project@;
    let second = predeclare_all_functions(parsed_file, scope_id, project);
    let ghost after_second = project@;
    proof {
        lemma_growth_chains(old(project)@, after_first, after_second);
        assert(functions_findable(parsed_file.funs@, 0, scope_id, after_first));
        lemma_file_stays_findable(
            *parsed_file,
            parsed_file.structs@.len(),
            0,
            base as nat,
            scope_id,
            after_first,
            after_second,
        );
    }
    let third = check_all_structs(parsed_file, base, scope_id, project);
    let ghost after_third = project@;
    proof {
        lemma_growth_chains(old(project)@, after_second, after_third);
        assert(records_findable(parsed_file.structs@, 0, 0, after_second));
        lemma_file_stays_findable(
            *parsed_file,
            0,
            parsed_file.funs@.len(),
            0,
            scope_id,
            after_second,
            after_third,
        );
    }
    let fourth = check_all_functions(parsed_file, scope_id, project);
    proof {
        lemma_growth_chains(old(project)@, after_third, project@);
    }
    or_error(or_error(or_error(first, second), third), fourth)
}

} // verus!
