//! The project: flat tables of functions, records and scopes.
//!
//! Scopes form a tree through parent indices. The top-level scope sits at
//! index 0 and has no parent; every other scope is created below an existing
//! one, so a parent always has a smaller index than its child and a walk
//! towards the root ends. The tables only grow.

use crate::checked::{
    lemma_block_in_range_grows, views, CheckedBlockView, CheckedFunction, CheckedFunctionView,
    CheckedStruct, CheckedStructView, CheckedVarDeclView, CheckedVariable, CheckedVariableView,
};
use crate::error::{JaktError, JaktErrorView, Span};
use crate::text::str_eq;
use crate::types::{lemma_in_range_grows, FunctionId, ScopeId, StructId, TypeView};
use vstd::prelude::*;
use vstd::string::*;

verus! {

/// Where `name` first occurs in `names` at or after `from`, if it does.
pub open spec fn position(names: Seq<Seq<char>>, name: Seq<char>, from: int) -> Option<int>
    decreases names.len() - from,
{
    if from < 0 || from >= names.len() {
        None
    } else if names[from] == name {
        Some(from)
    } else {
        position(names, name, from + 1)
    }
}

/// No name occurs twice.
pub open spec fn distinct(names: Seq<Seq<char>>) -> bool {
    forall|i: int, j: int| 0 <= i < j < names.len() ==> names[i] != names[j]
}

/// `position` finds the first occurrence, and finds none only where there is
/// none.
pub proof fn lemma_position_is_first(names: Seq<Seq<char>>, name: Seq<char>, from: int)
    requires
        0 <= from,
    ensures
        match position(names, name, from) {
            Some(at) => from <= at < names.len() && names[at] == name && forall|j: int|
                from <= j < at ==> names[j] != name,
            None => forall|j: int| from <= j < names.len() ==> names[j] != name,
        },
    decreases names.len() - from,
{
    if from < names.len() && names[from] != name {
        lemma_position_is_first(names, name, from + 1);
    }
}

/// Names added behind a sequence do not change what is found in it.
pub proof fn lemma_position_stable(
    names: Seq<Seq<char>>,
    longer: Seq<Seq<char>>,
    name: Seq<char>,
    from: int,
)
    requires
        0 <= from,
        names.len() <= longer.len(),
        forall|i: int| 0 <= i < names.len() ==> names[i] == longer[i],
        position(names, name, from) is Some,
    ensures
        position(longer, name, from) == position(names, name, from),
    decreases names.len() - from,
{
    if from < names.len() && names[from] != name {
        lemma_position_stable(names, longer, name, from + 1);
    }
}

/// A name that does not occur yet is found, once appended, at the end.
pub proof fn lemma_position_after_push(names: Seq<Seq<char>>, name: Seq<char>, from: int)
    requires
        0 <= from <= names.len(),
        position(names, name, from) is None,
    ensures
        position(names.push(name), name, from) == Some(names.len() as int),
    decreases names.len() - from,
{
    if from < names.len() {
        lemma_position_after_push(names, name, from + 1);
    }
}

/// The models of a sequence of bindings, each a name bound to an index into
/// one of the project's tables.
pub open spec fn binding_views(bindings: Seq<(String, usize)>) -> Seq<(Seq<char>, usize)> {
    Seq::new(bindings.len(), |i: int| (bindings[i].0@, bindings[i].1))
}

/// The names of a sequence of bindings, in order.
pub open spec fn binding_names(bindings: Seq<(Seq<char>, usize)>) -> Seq<Seq<char>> {
    Seq::new(bindings.len(), |i: int| bindings[i].0)
}

/// The names of a sequence of variables, in order.
pub open spec fn variable_names(vars: Seq<CheckedVariableView>) -> Seq<Seq<char>> {
    Seq::new(vars.len(), |i: int| vars[i].name)
}

/// The index that `name` is bound to, taking the first binding of that name.
pub open spec fn bound_to(bindings: Seq<(Seq<char>, usize)>, name: Seq<char>) -> Option<usize> {
    match position(binding_names(bindings), name, 0) {
        Some(at) => Some(bindings[at].1),
        None => None,
    }
}

/// The variable called `name`, taking the first of that name.
pub open spec fn variable_named(vars: Seq<CheckedVariableView>, name: Seq<char>) -> Option<
    CheckedVariableView,
> {
    match position(variable_names(vars), name, 0) {
        Some(at) => Some(vars[at]),
        None => None,
    }
}

/// One lexical scope: its variables, record names and function names, each in
/// order of declaration, and the scope that encloses it.
#[derive(Debug)]
pub struct Scope {
    pub vars: Vec<CheckedVariable>,
    pub structs: Vec<(String, StructId)>,
    pub funs: Vec<(String, FunctionId)>,
    pub parent: Option<ScopeId>,
}

/// The mathematical content of a [`Scope`].
pub struct ScopeView {
    pub vars: Seq<CheckedVariableView>,
    pub structs: Seq<(Seq<char>, StructId)>,
    pub funs: Seq<(Seq<char>, FunctionId)>,
    pub parent: Option<ScopeId>,
}

impl View for Scope {
    type V = ScopeView;

    open spec fn view(&self) -> ScopeView {
        ScopeView {
            vars: views(self.vars@),
            structs: binding_views(self.structs@),
            funs: binding_views(self.funs@),
            parent: self.parent,
        }
    }
}

impl ScopeView {
    /// The scope with nothing declared in it.
    pub open spec fn empty(parent: Option<ScopeId>) -> ScopeView {
        ScopeView { vars: Seq::empty(), structs: Seq::empty(), funs: Seq::empty(), parent }
    }

    /// Within each kind, no name is declared twice; every record and function
    /// that the scope names exists; the type of every variable mentions
    /// existing records only.
    pub open spec fn well_formed(self, records: nat, functions: nat) -> bool {
        &&& distinct(variable_names(self.vars))
        &&& distinct(binding_names(self.structs))
        &&& distinct(binding_names(self.funs))
        &&& forall|i: int| 0 <= i < self.vars.len() ==> (#[trigger] self.vars[i]).ty.in_range(records)
        &&& forall|i: int| 0 <= i < self.structs.len() ==> (#[trigger] self.structs[i]).1 < records
        &&& forall|i: int| 0 <= i < self.funs.len() ==> (#[trigger] self.funs[i]).1 < functions
    }

    /// The other scope holds everything this one holds, in the same places,
    /// below the same parent.
    pub open spec fn within(self, other: ScopeView) -> bool {
        &&& self.parent == other.parent
        &&& self.vars.len() <= other.vars.len()
        &&& forall|i: int| 0 <= i < self.vars.len() ==> self.vars[i] == other.vars[i]
        &&& self.structs.len() <= other.structs.len()
        &&& forall|i: int| 0 <= i < self.structs.len() ==> self.structs[i] == other.structs[i]
        &&& self.funs.len() <= other.funs.len()
        &&& forall|i: int| 0 <= i < self.funs.len() ==> self.funs[i] == other.funs[i]
    }
}

impl Scope {
    /// The scope with nothing declared in it.
    pub fn new(parent: Option<ScopeId>) -> (scope: Self)
        ensures
            scope@ == ScopeView::empty(parent),
    {
        let scope = Scope { vars: Vec::new(), structs: Vec::new(), funs: Vec::new(), parent };
        assert(scope@.vars =~= Seq::empty());
        assert(scope@.structs =~= Seq::empty());
        assert(scope@.funs =~= Seq::empty());
        scope
    }
}

/// Everything that has been checked so far.
#[derive(Debug)]
pub struct Project {
    pub funs: Vec<CheckedFunction>,
    pub structs: Vec<CheckedStruct>,
    pub scopes: Vec<Scope>,
}

/// The mathematical content of a [`Project`].
pub struct ProjectView {
    pub funs: Seq<CheckedFunctionView>,
    pub structs: Seq<CheckedStructView>,
    pub scopes: Seq<ScopeView>,
}

impl View for Project {
    type V = ProjectView;

    open spec fn view(&self) -> ProjectView {
        ProjectView {
            funs: views(self.funs@),
            structs: views(self.structs@),
            scopes: views(self.scopes@),
        }
    }
}

impl CheckedFunctionView {
    /// Every type of the signature and of the body mentions existing records
    /// only.
    pub open spec fn well_formed(self, records: nat) -> bool {
        &&& self.return_type.in_range(records)
        &&& forall|i: int|
            0 <= i < self.params.len() ==> (#[trigger] self.params[i]).variable.ty.in_range(records)
        &&& self.block.in_range(records)
    }
}

impl CheckedStructView {
    /// The record's scope exists, and every field type mentions existing
    /// records only.
    pub open spec fn well_formed(self, records: nat, scopes: nat) -> bool {
        &&& self.scope_id < scopes
        &&& forall|i: int| 0 <= i < self.fields.len() ==> (#[trigger] self.fields[i]).ty.in_range(
            records,
        )
    }
}

impl ProjectView {
    /// The project that holds the top-level scope and nothing else.
    pub open spec fn initial() -> ProjectView {
        ProjectView {
            funs: Seq::empty(),
            structs: Seq::empty(),
            scopes: seq![ScopeView::empty(None)],
        }
    }

    /// The scopes form a tree rooted at scope 0: the root has no parent, and
    /// every other scope has a parent of smaller index.
    pub open spec fn linked(self) -> bool {
        &&& self.scopes.len() > 0
        &&& self.scopes[0].parent is None
        &&& forall|i: int|
            0 < i < self.scopes.len() ==> (#[trigger] self.scopes[i]).parent is Some
                && self.scopes[i].parent.unwrap() < i
    }

    /// The invariant of a project: its scopes are linked, and every index
    /// stored anywhere in it points at an existing entry.
    pub open spec fn well_formed(self) -> bool {
        &&& self.linked()
        &&& forall|i: int|
            0 <= i < self.scopes.len() ==> (#[trigger] self.scopes[i]).well_formed(
                self.structs.len(),
                self.funs.len(),
            )
        &&& forall|i: int|
            0 <= i < self.structs.len() ==> (#[trigger] self.structs[i]).well_formed(
                self.structs.len(),
                self.scopes.len(),
            )
        &&& forall|i: int|
            0 <= i < self.funs.len() ==> (#[trigger] self.funs[i]).well_formed(self.structs.len())
    }

    /// The project after a scope has been created below `parent`.
    pub open spec fn with_scope(self, parent: ScopeId) -> ProjectView {
        ProjectView { scopes: self.scopes.push(ScopeView::empty(Some(parent))), ..self }
    }

    /// The project after `var` has been declared in scope `scope_id`.
    pub open spec fn with_var(self, scope_id: ScopeId, var: CheckedVariableView) -> ProjectView {
        let scope = self.scopes[scope_id as int];
        ProjectView {
            scopes: self.scopes.update(
                scope_id as int,
                ScopeView { vars: scope.vars.push(var), ..scope },
            ),
            ..self
        }
    }

    /// The project after record `struct_id` has been named in scope
    /// `scope_id`.
    pub open spec fn with_struct_name(
        self,
        scope_id: ScopeId,
        name: Seq<char>,
        struct_id: StructId,
    ) -> ProjectView {
        let scope = self.scopes[scope_id as int];
        ProjectView {
            scopes: self.scopes.update(
                scope_id as int,
                ScopeView { structs: scope.structs.push((name, struct_id)), ..scope },
            ),
            ..self
        }
    }

    /// The project after function `function_id` has been named in scope
    /// `scope_id`.
    pub open spec fn with_function_name(
        self,
        scope_id: ScopeId,
        name: Seq<char>,
        function_id: FunctionId,
    ) -> ProjectView {
        let scope = self.scopes[scope_id as int];
        ProjectView {
            scopes: self.scopes.update(
                scope_id as int,
                ScopeView { funs: scope.funs.push((name, function_id)), ..scope },
            ),
            ..self
        }
    }

    /// Declares `var` in scope `scope_id` unless a variable of that name is
    /// declared there already, in which case nothing changes.
    pub open spec fn add_var(self, scope_id: ScopeId, var: CheckedVariableView) -> ProjectView {
        if variable_named(self.scopes[scope_id as int].vars, var.name) is Some {
            self
        } else {
            self.with_var(scope_id, var)
        }
    }

    /// Names a record in scope `scope_id` unless the name is taken there.
    pub open spec fn add_struct(
        self,
        scope_id: ScopeId,
        name: Seq<char>,
        struct_id: StructId,
    ) -> ProjectView {
        if bound_to(self.scopes[scope_id as int].structs, name) is Some {
            self
        } else {
            self.with_struct_name(scope_id, name, struct_id)
        }
    }

    /// Names a function in scope `scope_id` unless the name is taken there.
    pub open spec fn add_function(
        self,
        scope_id: ScopeId,
        name: Seq<char>,
        function_id: FunctionId,
    ) -> ProjectView {
        if bound_to(self.scopes[scope_id as int].funs, name) is Some {
            self
        } else {
            self.with_function_name(scope_id, name, function_id)
        }
    }

    /// The variable that `name` refers to from scope `scope_id`: the first of
    /// that name in the scope itself, else in its parent, and so on outwards.
    pub open spec fn find_var_in_scope(self, scope_id: ScopeId, name: Seq<char>) -> Option<
        CheckedVariableView,
    >
        decreases scope_id,
    {
        if scope_id >= self.scopes.len() {
            None
        } else {
            let scope = self.scopes[scope_id as int];
            let here = variable_named(scope.vars, name);
            if here is Some {
                here
            } else if scope.parent is Some && scope.parent.unwrap() < scope_id {
                self.find_var_in_scope(scope.parent.unwrap(), name)
            } else {
                None
            }
        }
    }

    /// The record that `name` refers to from scope `scope_id`.
    pub open spec fn find_struct_in_scope(self, scope_id: ScopeId, name: Seq<char>) -> Option<
        StructId,
    >
        decreases scope_id,
    {
        if scope_id >= self.scopes.len() {
            None
        } else {
            let scope = self.scopes[scope_id as int];
            let here = bound_to(scope.structs, name);
            if here is Some {
                here
            } else if scope.parent is Some && scope.parent.unwrap() < scope_id {
                self.find_struct_in_scope(scope.parent.unwrap(), name)
            } else {
                None
            }
        }
    }

    /// The function that `name` refers to from scope `scope_id`.
    pub open spec fn find_function_in_scope(self, scope_id: ScopeId, name: Seq<char>) -> Option<
        FunctionId,
    >
        decreases scope_id,
    {
        if scope_id >= self.scopes.len() {
            None
        } else {
            let scope = self.scopes[scope_id as int];
            let here = bound_to(scope.funs, name);
            if here is Some {
                here
            } else if scope.parent is Some && scope.parent.unwrap() < scope_id {
                self.find_function_in_scope(scope.parent.unwrap(), name)
            } else {
                None
            }
        }
    }

    /// The scope at which a walk from `scope_id` towards the root ends.
    pub open spec fn walk_end(self, scope_id: ScopeId) -> ScopeId
        decreases scope_id,
    {
        if scope_id >= self.scopes.len() {
            scope_id
        } else {
            let scope = self.scopes[scope_id as int];
            if scope.parent is Some && scope.parent.unwrap() < scope_id {
                self.walk_end(scope.parent.unwrap())
            } else {
                scope_id
            }
        }
    }
}

/// The diagnostic for a name that is declared a second time in one scope.
pub open spec fn redefinition_error(name: Seq<char>, span: Span) -> JaktErrorView {
    JaktErrorView::TypecheckError("redefinition of "@ + name, span)
}

/// The model of what a declaration returns.
pub open spec fn declared(result: Result<(), JaktError>) -> Option<JaktErrorView> {
    match result {
        Ok(_) => None,
        Err(e) => Some(e@),
    }
}

/// The model of an optional variable.
pub open spec fn variable_view(variable: Option<CheckedVariable>) -> Option<CheckedVariableView> {
    match variable {
        Some(v) => Some(v@),
        None => None,
    }
}

fn make_redefinition_error(name: &str, span: Span) -> (error: JaktError)
    ensures
        error@ == redefinition_error(name@, span),
{
    JaktError::TypecheckError(String::from_str("redefinition of ").concat(name), span)
}

/// The index that `name` is bound to in `bindings`, by a scan from the front.
fn find_binding(bindings: &Vec<(String, usize)>, name: &str) -> (found: Option<usize>)
    ensures
        found == bound_to(binding_views(bindings@), name@),
{
    let ghost names = binding_names(binding_views(bindings@));
    let mut i: usize = 0;
    while i < bindings.len()
        invariant
            i <= bindings.len(),
            names == binding_names(binding_views(bindings@)),
            position(names, name@, 0) == position(names, name@, i as int),
        decreases bindings.len() - i,
    {
        if str_eq(bindings[i].0.as_str(), name) {
            return Some(bindings[i].1);
        }
        i += 1;
    }
    None
}

/// The variable called `name` among `vars`, by a scan from the front.
fn find_variable(vars: &Vec<CheckedVariable>, name: &str) -> (found: Option<CheckedVariable>)
    ensures
        variable_view(found) == variable_named(views(vars@), name@),
{
    let ghost names = variable_names(views(vars@));
    let mut i: usize = 0;
    while i < vars.len()
        invariant
            i <= vars.len(),
            names == variable_names(views(vars@)),
            position(names, name@, 0) == position(names, name@, i as int),
        decreases vars.len() - i,
    {
        if str_eq(vars[i].name.as_str(), name) {
            return Some(vars[i].clone());
        }
        i += 1;
    }
    None
}

impl Project {
    /// The project that holds the top-level scope and nothing else.
    pub fn new() -> (project: Self)
        ensures
            project@ == ProjectView::initial(),
            project@.well_formed(),
    {
        let mut scopes: Vec<Scope> = Vec::new();
        scopes.push(Scope::new(None));
        let project = Project { funs: Vec::new(), structs: Vec::new(), scopes };
        assert(project@.funs =~= Seq::empty());
        assert(project@.structs =~= Seq::empty());
        assert(project@.scopes =~= seq![ScopeView::empty(None)]);
        project
    }

    /// Creates an empty scope below `parent_id` and returns its index.
    pub fn create_scope(&mut self, parent_id: ScopeId) -> (scope_id: ScopeId)
        ensures
            scope_id == old(self)@.scopes.len(),
            final(self)@ == old(self)@.with_scope(parent_id),
            old(self)@.grows_to(final(self)@),
            old(self)@.well_formed() && parent_id < old(self)@.scopes.len()
                ==> final(self)@.well_formed(),
    {
        self.scopes.push(Scope::new(Some(parent_id)));
        assert(self@.scopes =~= old(self)@.scopes.push(ScopeView::empty(Some(parent_id))));
        proof {
            if old(self)@.well_formed() && parent_id < old(self)@.scopes.len() {
                lemma_with_scope_well_formed(old(self)@, parent_id);
            }
        }
        self.scopes.len() - 1
    }

    /// Declares `var` in scope `scope_id`. A second variable of one name in
    /// one scope is refused, and the project is left as it was.
    pub fn add_var_to_scope(&mut self, scope_id: ScopeId, var: CheckedVariable, span: Span) -> (result:
        Result<(), JaktError>)
        requires
            scope_id < old(self)@.scopes.len(),
        ensures
            final(self)@ == old(self)@.add_var(scope_id, var@),
            old(self)@.grows_to(final(self)@),
            old(self)@.well_formed() && var@.ty.in_range(old(self)@.structs.len())
                ==> final(self)@.well_formed(),
            declared(result) == if variable_named(
                old(self)@.scopes[scope_id as int].vars,
                var@.name,
            ) is Some {
                Some(redefinition_error(var@.name, span))
            } else {
                None
            },
    {
        proof {
            lemma_add_var(self@, scope_id, var@);
        }
        if find_variable(&self.scopes[scope_id].vars, var.name.as_str()).is_some() {
            return Err(make_redefinition_error(var.name.as_str(), span));
        }
        self.scopes[scope_id].vars.push(var);
        proof {
            let before = old(self)@.scopes[scope_id as int];
            let after = self@.scopes[scope_id as int];
            assert(after.vars =~= before.vars.push(var@));
            assert(self@.scopes =~= old(self)@.with_var(scope_id, var@).scopes);
        }
        Ok(())
    }

    /// The variable that `var` refers to from scope `scope_id`.
    pub fn find_var_in_scope(&self, scope_id: ScopeId, var: &str) -> (found: Option<
        CheckedVariable,
    >)
        requires
            self@.linked(),
            scope_id < self@.scopes.len(),
        ensures
            variable_view(found) == self@.find_var_in_scope(scope_id, var@),
            self@.well_formed() && found is Some ==> found.unwrap()@.name == var@
                && found.unwrap()@.ty.in_range(self@.structs.len()),
    {
        proof {
            if self@.well_formed() {
                lemma_found_var_in_range(self@, scope_id, var@);
            }
        }
        let mut current_id = scope_id;
        loop
            invariant
                self@.linked(),
                current_id < self@.scopes.len(),
                self@.find_var_in_scope(scope_id, var@) == self@.find_var_in_scope(
                    current_id,
                    var@,
                ),
                self@.well_formed() ==> (self@.find_var_in_scope(scope_id, var@) matches Some(v)
                    ==> v.name == var@ && v.ty.in_range(self@.structs.len())),
            decreases current_id,
        {
            let scope = &self.scopes[current_id];
            let here = find_variable(&scope.vars, var);
            if here.is_some() {
                return here;
            }
            match scope.parent {
                Some(parent_id) => {
                    assert(self@.scopes[current_id as int].parent == Some(parent_id));
                    current_id = parent_id;
                },
                None => {
                    return None;
                },
            }
        }
    }

    /// Names record `struct_id` in scope `scope_id`. A second record of one
    /// name in one scope is refused, and the project is left as it was.
    pub fn add_struct_to_scope(
        &mut self,
        scope_id: ScopeId,
        name: String,
        struct_id: StructId,
        span: Span,
    ) -> (result: Result<(), JaktError>)
        requires
            scope_id < old(self)@.scopes.len(),
        ensures
            final(self)@ == old(self)@.add_struct(scope_id, name@, struct_id),
            old(self)@.grows_to(final(self)@),
            old(self)@.well_formed() && struct_id < old(self)@.structs.len()
                ==> final(self)@.well_formed(),
            declared(result) == if bound_to(old(self)@.scopes[scope_id as int].structs, name@)
                is Some {
                Some(redefinition_error(name@, span))
            } else {
                None
            },
    {
        proof {
            lemma_add_struct(self@, scope_id, name@, struct_id);
        }
        if find_binding(&self.scopes[scope_id].structs, name.as_str()).is_some() {
            return Err(make_redefinition_error(name.as_str(), span));
        }
        self.scopes[scope_id].structs.push((name, struct_id));
        proof {
            let before = old(self)@.scopes[scope_id as int];
            let after = self@.scopes[scope_id as int];
            assert(after.structs =~= before.structs.push((name@, struct_id)));
            assert(self@.scopes =~= old(self)@.with_struct_name(scope_id, name@, struct_id).scopes);
        }
        Ok(())
    }

    /// The record that `structure` refers to from scope `scope_id`.
    pub fn find_struct_in_scope(&self, scope_id: ScopeId, structure: &str) -> (found: Option<
        StructId,
    >)
        requires
            self@.linked(),
            scope_id < self@.scopes.len(),
        ensures
            found == self@.find_struct_in_scope(scope_id, structure@),
            self@.well_formed() && found is Some ==> found.unwrap() < self@.structs.len(),
    {
        proof {
            if self@.well_formed() {
                lemma_found_struct_exists(self@, scope_id, structure@);
            }
        }
        let mut current_id = scope_id;
        loop
            invariant
                self@.linked(),
                current_id < self@.scopes.len(),
                self@.find_struct_in_scope(scope_id, structure@) == self@.find_struct_in_scope(
                    current_id,
                    structure@,
                ),
                self@.well_formed() ==> (self@.find_struct_in_scope(scope_id, structure@)
                    matches Some(id) ==> id < self@.structs.len()),
            decreases current_id,
        {
            let scope = &self.scopes[current_id];
            let here = find_binding(&scope.structs, structure);
            if here.is_some() {
                return here;
            }
            match scope.parent {
                Some(parent_id) => {
                    assert(self@.scopes[current_id as int].parent == Some(parent_id));
                    current_id = parent_id;
                },
                None => {
                    return None;
                },
            }
        }
    }

    /// Names function `function_id` in scope `scope_id`. A second function of
    /// one name in one scope is refused, and the project is left as it was.
    pub fn add_function_to_scope(
        &mut self,
        scope_id: ScopeId,
        name: String,
        function_id: FunctionId,
        span: Span,
    ) -> (result: Result<(), JaktError>)
        requires
            scope_id < old(self)@.scopes.len(),
        ensures
            final(self)@ == old(self)@.add_function(scope_id, name@, function_id),
            old(self)@.grows_to(final(self)@),
            old(self)@.well_formed() && function_id < old(self)@.funs.len()
                ==> final(self)@.well_formed(),
            declared(result) == if bound_to(old(self)@.scopes[scope_id as int].funs, name@)
                is Some {
                Some(redefinition_error(name@, span))
            } else {
                None
            },
    {
        proof {
            lemma_add_function(self@, scope_id, name@, function_id);
        }
        if find_binding(&self.scopes[scope_id].funs, name.as_str()).is_some() {
            return Err(make_redefinition_error(name.as_str(), span));
        }
        self.scopes[scope_id].funs.push((name, function_id));
        proof {
            let before = old(self)@.scopes[scope_id as int];
            let after = self@.scopes[scope_id as int];
            assert(after.funs =~= before.funs.push((name@, function_id)));
            assert(self@.scopes =~= old(self)@.with_function_name(
                scope_id,
                name@,
                function_id,
            ).scopes);
        }
        Ok(())
    }

    /// The function that `fun_name` refers to from scope `scope_id`.
    pub fn find_function_in_scope(&self, scope_id: ScopeId, fun_name: &str) -> (found: Option<
        FunctionId,
    >)
        requires
            self@.linked(),
            scope_id < self@.scopes.len(),
        ensures
            found == self@.find_function_in_scope(scope_id, fun_name@),
            self@.well_formed() && found is Some ==> found.unwrap() < self@.funs.len(),
    {
        proof {
            if self@.well_formed() {
                lemma_found_function_exists(self@, scope_id, fun_name@);
            }
        }
        let mut current_id = scope_id;
        loop
            invariant
                self@.linked(),
                current_id < self@.scopes.len(),
                self@.find_function_in_scope(scope_id, fun_name@) == self@.find_function_in_scope(
                    current_id,
                    fun_name@,
                ),
                self@.well_formed() ==> (self@.find_function_in_scope(scope_id, fun_name@)
                    matches Some(id) ==> id < self@.funs.len()),
            decreases current_id,
        {
            let scope = &self.scopes[current_id];
            let here = find_binding(&scope.funs, fun_name);
            if here.is_some() {
                return here;
            }
            match scope.parent {
                Some(parent_id) => {
                    assert(self@.scopes[current_id as int].parent == Some(parent_id));
                    current_id = parent_id;
                },
                None => {
                    return None;
                },
            }
        }
    }
}

/// A scope created below an existing one keeps the project well formed.
pub proof fn lemma_with_scope_well_formed(project: ProjectView, parent: ScopeId)
    requires
        project.well_formed(),
        parent < project.scopes.len(),
    ensures
        project.with_scope(parent).well_formed(),
{
    let after = project.with_scope(parent);
    assert forall|i: int| 0 <= i < after.scopes.len() implies (#[trigger] after.scopes[i]).well_formed(
        after.structs.len(),
        after.funs.len(),
    ) by {
        if i < project.scopes.len() {
            assert(after.scopes[i] == project.scopes[i]);
        }
    }
    assert forall|i: int| 0 < i < after.scopes.len() implies (#[trigger] after.scopes[i]).parent is Some
        && after.scopes[i].parent.unwrap() < i by {
        if i < project.scopes.len() {
            assert(after.scopes[i] == project.scopes[i]);
        }
    }
    assert(after.scopes[0] == project.scopes[0]);
    assert forall|i: int| 0 <= i < after.structs.len() implies (#[trigger] after.structs[i]).well_formed(
        after.structs.len(),
        after.scopes.len(),
    ) by {
        assert(project.structs[i].well_formed(project.structs.len(), project.scopes.len()));
    }
}


/// In a well-formed project, a record found by name exists.
pub proof fn lemma_found_struct_exists(project: ProjectView, scope_id: ScopeId, name: Seq<char>)
    requires
        project.well_formed(),
    ensures
        project.find_struct_in_scope(scope_id, name) matches Some(id) ==> id
            < project.structs.len(),
    decreases scope_id,
{
    if scope_id < project.scopes.len() {
        let scope = project.scopes[scope_id as int];
        assert(scope.well_formed(project.structs.len(), project.funs.len()));
        lemma_position_is_first(binding_names(scope.structs), name, 0);
        if bound_to(scope.structs, name) is None && scope.parent is Some && scope.parent.unwrap()
            < scope_id {
            lemma_found_struct_exists(project, scope.parent.unwrap(), name);
        }
    }
}

/// In a well-formed project, a function found by name exists.
pub proof fn lemma_found_function_exists(project: ProjectView, scope_id: ScopeId, name: Seq<char>)
    requires
        project.well_formed(),
    ensures
        project.find_function_in_scope(scope_id, name) matches Some(id) ==> id
            < project.funs.len(),
    decreases scope_id,
{
    if scope_id < project.scopes.len() {
        let scope = project.scopes[scope_id as int];
        assert(scope.well_formed(project.structs.len(), project.funs.len()));
        lemma_position_is_first(binding_names(scope.funs), name, 0);
        if bound_to(scope.funs, name) is None && scope.parent is Some && scope.parent.unwrap()
            < scope_id {
            lemma_found_function_exists(project, scope.parent.unwrap(), name);
        }
    }
}

/// In a well-formed project, the type of a variable found by name mentions
/// existing records only, and the variable has the name asked for.
pub proof fn lemma_found_var_in_range(project: ProjectView, scope_id: ScopeId, name: Seq<char>)
    requires
        project.well_formed(),
    ensures
        project.find_var_in_scope(scope_id, name) matches Some(v) ==> v.ty.in_range(
            project.structs.len(),
        ) && v.name == name,
    decreases scope_id,
{
    if scope_id < project.scopes.len() {
        let scope = project.scopes[scope_id as int];
        assert(scope.well_formed(project.structs.len(), project.funs.len()));
        lemma_position_is_first(variable_names(scope.vars), name, 0);
        if variable_named(scope.vars, name) is None && scope.parent is Some
            && scope.parent.unwrap() < scope_id {
            lemma_found_var_in_range(project, scope.parent.unwrap(), name);
        }
    }
}


impl ProjectView {
    /// The later project holds everything this one holds, in the same
    /// places: every scope with its parent and its declarations in front,
    /// every record with its scope, every function with its parameters.
    pub open spec fn grows_to(self, later: ProjectView) -> bool {
        &&& self.scopes.len() <= later.scopes.len()
        &&& forall|i: int|
            0 <= i < self.scopes.len() ==> (#[trigger] self.scopes[i]).within(later.scopes[i])
        &&& self.structs.len() <= later.structs.len()
        &&& forall|i: int|
            0 <= i < self.structs.len() ==> (#[trigger] self.structs[i]).scope_id
                == later.structs[i].scope_id
        &&& self.funs.len() <= later.funs.len()
        &&& forall|i: int|
            0 <= i < self.funs.len() ==> (#[trigger] self.funs[i]).params == later.funs[i].params
    }
}

/// Growth is reflexive.
pub proof fn lemma_grows_to_itself(project: ProjectView)
    ensures
        project.grows_to(project),
{
}

/// Growth is transitive.
pub proof fn lemma_growth_chains(first: ProjectView, second: ProjectView, third: ProjectView)
    requires
        first.grows_to(second),
        second.grows_to(third),
    ensures
        first.grows_to(third),
{
    assert forall|i: int| 0 <= i < first.scopes.len() implies (#[trigger] first.scopes[i]).within(
        third.scopes[i],
    ) by {
        assert(first.scopes[i].within(second.scopes[i]));
        assert(second.scopes[i].within(third.scopes[i]));
    }
    assert forall|i: int| 0 <= i < first.structs.len() implies (#[trigger] first.structs[i]).scope_id
        == third.structs[i].scope_id by {
        assert(first.structs[i].scope_id == second.structs[i].scope_id);
        assert(second.structs[i].scope_id == third.structs[i].scope_id);
    }
    assert forall|i: int| 0 <= i < first.funs.len() implies (#[trigger] first.funs[i]).params
        == third.funs[i].params by {
        assert(first.funs[i].params == second.funs[i].params);
        assert(second.funs[i].params == third.funs[i].params);
    }
}

/// Creating a scope grows the project.
pub proof fn lemma_with_scope_grows(project: ProjectView, parent: ScopeId)
    ensures
        project.grows_to(project.with_scope(parent)),
{
}

/// Declaring a variable grows the project and, where the variable's type
/// mentions existing records only, keeps it well formed.
pub proof fn lemma_add_var(project: ProjectView, scope_id: ScopeId, var: CheckedVariableView)
    requires
        scope_id < project.scopes.len(),
    ensures
        project.grows_to(project.add_var(scope_id, var)),
        project.add_var(scope_id, var).funs == project.funs,
        project.add_var(scope_id, var).structs == project.structs,
        project.add_var(scope_id, var).scopes.len() == project.scopes.len(),
        project.well_formed() && var.ty.in_range(project.structs.len()) ==> project.add_var(
            scope_id,
            var,
        ).well_formed(),
{
    let after = project.add_var(scope_id, var);
    let before_scope = project.scopes[scope_id as int];
    if variable_named(before_scope.vars, var.name) is None {
        assert forall|i: int| 0 <= i < project.scopes.len() implies (
        #[trigger] project.scopes[i]).within(after.scopes[i]) by {}
        if project.well_formed() && var.ty.in_range(project.structs.len()) {
            let after_scope = after.scopes[scope_id as int];
            assert(before_scope.well_formed(project.structs.len(), project.funs.len()));
            lemma_position_is_first(variable_names(before_scope.vars), var.name, 0);
            assert forall|i: int, j: int| 0 <= i < j < after_scope.vars.len() implies variable_names(
                after_scope.vars,
            )[i] != variable_names(after_scope.vars)[j] by {
                if j < before_scope.vars.len() {
                    assert(variable_names(before_scope.vars)[i] != variable_names(
                        before_scope.vars,
                    )[j]);
                } else {
                    assert(variable_names(before_scope.vars)[i] != var.name);
                }
            }
            assert forall|i: int| 0 <= i < after_scope.vars.len() implies (
            #[trigger] after_scope.vars[i]).ty.in_range(project.structs.len()) by {
                if i < before_scope.vars.len() {
                    assert(before_scope.vars[i].ty.in_range(project.structs.len()));
                }
            }
            assert(after_scope.well_formed(after.structs.len(), after.funs.len()));
            assert forall|i: int| 0 <= i < after.scopes.len() implies (#[trigger] after.scopes[i]).well_formed(
                after.structs.len(),
                after.funs.len(),
            ) by {
                if i != scope_id {
                    assert(after.scopes[i] == project.scopes[i]);
                }
            }
            assert forall|i: int| 0 < i < after.scopes.len() implies (#[trigger] after.scopes[i]).parent is Some
                && after.scopes[i].parent.unwrap() < i by {
                assert(after.scopes[i].parent == project.scopes[i].parent);
            }
            assert(after.scopes[0].parent == project.scopes[0].parent);
            assert forall|i: int| 0 <= i < after.structs.len() implies (
            #[trigger] after.structs[i]).well_formed(after.structs.len(), after.scopes.len()) by {
                assert(project.structs[i].well_formed(
                    project.structs.len(),
                    project.scopes.len(),
                ));
            }
        }
    }
}

/// A binding pushed behind bindings with other names keeps the names
/// distinct.
pub proof fn lemma_distinct_after_push(
    bindings: Seq<(Seq<char>, usize)>,
    name: Seq<char>,
    index: usize,
)
    requires
        distinct(binding_names(bindings)),
        bound_to(bindings, name) is None,
    ensures
        distinct(binding_names(bindings.push((name, index)))),
{
    lemma_position_is_first(binding_names(bindings), name, 0);
    let after = bindings.push((name, index));
    assert forall|i: int, j: int| 0 <= i < j < after.len() implies binding_names(after)[i]
        != binding_names(after)[j] by {
        if j < bindings.len() {
            assert(binding_names(bindings)[i] != binding_names(bindings)[j]);
        } else {
            assert(binding_names(bindings)[i] != name);
        }
    }
}

/// Naming a record grows the project and, where the record exists, keeps it
/// well formed.
pub proof fn lemma_add_struct(
    project: ProjectView,
    scope_id: ScopeId,
    name: Seq<char>,
    struct_id: StructId,
)
    requires
        scope_id < project.scopes.len(),
    ensures
        project.grows_to(project.add_struct(scope_id, name, struct_id)),
        project.add_struct(scope_id, name, struct_id).funs == project.funs,
        project.add_struct(scope_id, name, struct_id).structs == project.structs,
        project.add_struct(scope_id, name, struct_id).scopes.len() == project.scopes.len(),
        project.well_formed() && struct_id < project.structs.len() ==> project.add_struct(
            scope_id,
            name,
            struct_id,
        ).well_formed(),
{
    let after = project.add_struct(scope_id, name, struct_id);
    let before_scope = project.scopes[scope_id as int];
    if bound_to(before_scope.structs, name) is None {
        assert forall|i: int| 0 <= i < project.scopes.len() implies (
        #[trigger] project.scopes[i]).within(after.scopes[i]) by {}
        if project.well_formed() && struct_id < project.structs.len() {
            let after_scope = after.scopes[scope_id as int];
            assert(before_scope.well_formed(project.structs.len(), project.funs.len()));
            lemma_distinct_after_push(before_scope.structs, name, struct_id);
            assert forall|i: int| 0 <= i < after_scope.structs.len() implies (
            #[trigger] after_scope.structs[i]).1 < project.structs.len() by {
                if i < before_scope.structs.len() {
                    assert(before_scope.structs[i].1 < project.structs.len());
                }
            }
            assert(after_scope.well_formed(after.structs.len(), after.funs.len()));
            assert forall|i: int| 0 <= i < after.scopes.len() implies (#[trigger] after.scopes[i]).well_formed(
                after.structs.len(),
                after.funs.len(),
            ) by {
                if i != scope_id {
                    assert(after.scopes[i] == project.scopes[i]);
                }
            }
            assert forall|i: int| 0 < i < after.scopes.len() implies (#[trigger] after.scopes[i]).parent is Some
                && after.scopes[i].parent.unwrap() < i by {
                assert(after.scopes[i].parent == project.scopes[i].parent);
            }
            assert(after.scopes[0].parent == project.scopes[0].parent);
            assert forall|i: int| 0 <= i < after.structs.len() implies (
            #[trigger] after.structs[i]).well_formed(after.structs.len(), after.scopes.len()) by {
                assert(project.structs[i].well_formed(
                    project.structs.len(),
                    project.scopes.len(),
                ));
            }
        }
    }
}

/// Naming a function grows the project and, where the function exists,
/// keeps it well formed.
pub proof fn lemma_add_function(
    project: ProjectView,
    scope_id: ScopeId,
    name: Seq<char>,
    function_id: FunctionId,
)
    requires
        scope_id < project.scopes.len(),
    ensures
        project.grows_to(project.add_function(scope_id, name, function_id)),
        project.add_function(scope_id, name, function_id).funs == project.funs,
        project.add_function(scope_id, name, function_id).structs == project.structs,
        project.add_function(scope_id, name, function_id).scopes.len() == project.scopes.len(),
        project.well_formed() && function_id < project.funs.len() ==> project.add_function(
            scope_id,
            name,
            function_id,
        ).well_formed(),
        project.add_function(scope_id, name, function_id).find_function_in_scope(scope_id, name)
            is Some,
{
    let after = project.add_function(scope_id, name, function_id);
    let before_scope = project.scopes[scope_id as int];
    if bound_to(before_scope.funs, name) is None {
        assert forall|i: int| 0 <= i < project.scopes.len() implies (
        #[trigger] project.scopes[i]).within(after.scopes[i]) by {}
        let after_scope = after.scopes[scope_id as int];
        assert(binding_names(after_scope.funs) =~= binding_names(before_scope.funs).push(name));
        lemma_position_after_push(binding_names(before_scope.funs), name, 0);
        if project.well_formed() && function_id < project.funs.len() {
            assert(before_scope.well_formed(project.structs.len(), project.funs.len()));
            lemma_distinct_after_push(before_scope.funs, name, function_id);
            assert forall|i: int| 0 <= i < after_scope.funs.len() implies (
            #[trigger] after_scope.funs[i]).1 < project.funs.len() by {
                if i < before_scope.funs.len() {
                    assert(before_scope.funs[i].1 < project.funs.len());
                }
            }
            assert(after_scope.well_formed(after.structs.len(), after.funs.len()));
            assert forall|i: int| 0 <= i < after.scopes.len() implies (#[trigger] after.scopes[i]).well_formed(
                after.structs.len(),
                after.funs.len(),
            ) by {
                if i != scope_id {
                    assert(after.scopes[i] == project.scopes[i]);
                }
            }
            assert forall|i: int| 0 < i < after.scopes.len() implies (#[trigger] after.scopes[i]).parent is Some
                && after.scopes[i].parent.unwrap() < i by {
                assert(after.scopes[i].parent == project.scopes[i].parent);
            }
            assert(after.scopes[0].parent == project.scopes[0].parent);
            assert forall|i: int| 0 <= i < after.structs.len() implies (
            #[trigger] after.structs[i]).well_formed(after.structs.len(), after.scopes.len()) by {
                assert(project.structs[i].well_formed(
                    project.structs.len(),
                    project.scopes.len(),
                ));
            }
        }
    }
}

/// What a scope binds, it still binds, to the same thing, after it has
/// grown: the first declaration of a name wins.
pub proof fn lemma_binding_survives(
    bindings: Seq<(Seq<char>, usize)>,
    longer: Seq<(Seq<char>, usize)>,
    name: Seq<char>,
)
    requires
        bindings.len() <= longer.len(),
        forall|i: int| 0 <= i < bindings.len() ==> bindings[i] == longer[i],
        bound_to(bindings, name) is Some,
    ensures
        bound_to(longer, name) == bound_to(bindings, name),
{
    lemma_position_is_first(binding_names(bindings), name, 0);
    assert forall|i: int| 0 <= i < binding_names(bindings).len() implies binding_names(bindings)[i]
        == binding_names(longer)[i] by {
        assert(bindings[i] == longer[i]);
    }
    lemma_position_stable(binding_names(bindings), binding_names(longer), name, 0);
}

/// A function that a name refers to from a scope is still what the name
/// refers to from that scope after the project has grown, as long as the
/// name was found in the scope itself.
pub proof fn lemma_function_binding_survives(
    project: ProjectView,
    later: ProjectView,
    scope_id: ScopeId,
    name: Seq<char>,
)
    requires
        project.grows_to(later),
        scope_id < project.scopes.len(),
        bound_to(project.scopes[scope_id as int].funs, name) is Some,
    ensures
        later.find_function_in_scope(scope_id, name) == project.find_function_in_scope(
            scope_id,
            name,
        ),
        bound_to(later.scopes[scope_id as int].funs, name) == bound_to(
            project.scopes[scope_id as int].funs,
            name,
        ),
{
    assert(project.scopes[scope_id as int].within(later.scopes[scope_id as int]));
    lemma_binding_survives(
        project.scopes[scope_id as int].funs,
        later.scopes[scope_id as int].funs,
        name,
    );
}


impl ProjectView {
    /// The project after a function has been appended to the table.
    pub open spec fn with_function(self, function: CheckedFunctionView) -> ProjectView {
        ProjectView { funs: self.funs.push(function), ..self }
    }

    /// The project after a record has been appended to the table.
    pub open spec fn with_struct(self, structure: CheckedStructView) -> ProjectView {
        ProjectView { structs: self.structs.push(structure), ..self }
    }

    /// The project after record `struct_id` has been given its fields.
    pub open spec fn with_fields(
        self,
        struct_id: StructId,
        fields: Seq<CheckedVarDeclView>,
    ) -> ProjectView {
        ProjectView {
            structs: self.structs.update(
                struct_id as int,
                CheckedStructView { fields, ..self.structs[struct_id as int] },
            ),
            ..self
        }
    }

    /// The project after function `function_id` has been given its body and
    /// its return type.
    pub open spec fn with_body(
        self,
        function_id: FunctionId,
        block: CheckedBlockView,
        return_type: TypeView,
    ) -> ProjectView {
        ProjectView {
            funs: self.funs.update(
                function_id as int,
                CheckedFunctionView { block, return_type, ..self.funs[function_id as int] },
            ),
            ..self
        }
    }
}

/// Appending a function grows the project and, where the function's types
/// mention existing records only, keeps it well formed.
pub proof fn lemma_with_function(project: ProjectView, function: CheckedFunctionView)
    ensures
        project.grows_to(project.with_function(function)),
        project.well_formed() && function.well_formed(project.structs.len())
            ==> project.with_function(function).well_formed(),
{
    let after = project.with_function(function);
    if project.well_formed() && function.well_formed(project.structs.len()) {
        assert forall|i: int| 0 <= i < after.scopes.len() implies (#[trigger] after.scopes[i]).well_formed(
            after.structs.len(),
            after.funs.len(),
        ) by {
            assert(project.scopes[i].well_formed(project.structs.len(), project.funs.len()));
        }
        assert forall|i: int| 0 <= i < after.funs.len() implies (#[trigger] after.funs[i]).well_formed(
            after.structs.len(),
        ) by {
            if i < project.funs.len() {
                assert(project.funs[i].well_formed(project.structs.len()));
            }
        }
    }
}

/// Appending a record grows the project and, where the record's scope exists
/// and its fields mention only records that exist once it is appended,
/// keeps it well formed.
pub proof fn lemma_with_struct(project: ProjectView, structure: CheckedStructView)
    ensures
        project.grows_to(project.with_struct(structure)),
        project.well_formed() && structure.well_formed(
            project.structs.len() + 1,
            project.scopes.len(),
        ) ==> project.with_struct(structure).well_formed(),
{
    let after = project.with_struct(structure);
    let fewer = project.structs.len();
    let more = after.structs.len();
    if project.well_formed() && structure.well_formed(more, project.scopes.len()) {
        assert forall|i: int| 0 <= i < after.scopes.len() implies (#[trigger] after.scopes[i]).well_formed(
            more,
            after.funs.len(),
        ) by {
            let scope = project.scopes[i];
            assert(scope.well_formed(fewer, project.funs.len()));
            assert forall|j: int| 0 <= j < scope.vars.len() implies (#[trigger] scope.vars[j]).ty.in_range(
                more,
            ) by {
                lemma_in_range_grows(scope.vars[j].ty, fewer, more);
            }
            assert forall|j: int| 0 <= j < scope.structs.len() implies (
            #[trigger] scope.structs[j]).1 < more by {
                assert(scope.structs[j].1 < fewer);
            }
        }
        assert forall|i: int| 0 <= i < after.structs.len() implies (#[trigger] after.structs[i]).well_formed(
            more,
            after.scopes.len(),
        ) by {
            if i < project.structs.len() {
                let record = project.structs[i];
                assert(record.well_formed(fewer, project.scopes.len()));
                assert forall|j: int| 0 <= j < record.fields.len() implies (
                #[trigger] record.fields[j]).ty.in_range(more) by {
                    lemma_in_range_grows(record.fields[j].ty, fewer, more);
                }
            }
        }
        assert forall|i: int| 0 <= i < after.funs.len() implies (#[trigger] after.funs[i]).well_formed(
            more,
        ) by {
            let function = project.funs[i];
            assert(function.well_formed(fewer));
            lemma_in_range_grows(function.return_type, fewer, more);
            lemma_block_in_range_grows(function.block, fewer, more);
            assert forall|j: int| 0 <= j < function.params.len() implies (
            #[trigger] function.params[j]).variable.ty.in_range(more) by {
                lemma_in_range_grows(function.params[j].variable.ty, fewer, more);
            }
        }
    }
}

/// Giving a record its fields grows the project and, where the fields
/// mention existing records only, keeps it well formed.
pub proof fn lemma_with_fields(
    project: ProjectView,
    struct_id: StructId,
    fields: Seq<CheckedVarDeclView>,
)
    requires
        struct_id < project.structs.len(),
    ensures
        project.grows_to(project.with_fields(struct_id, fields)),
        project.well_formed() && (forall|i: int|
            0 <= i < fields.len() ==> (#[trigger] fields[i]).ty.in_range(project.structs.len()))
            ==> project.with_fields(struct_id, fields).well_formed(),
{
    let after = project.with_fields(struct_id, fields);
    if project.well_formed() && (forall|i: int|
        0 <= i < fields.len() ==> (#[trigger] fields[i]).ty.in_range(project.structs.len())) {
        assert forall|i: int| 0 <= i < after.scopes.len() implies (#[trigger] after.scopes[i]).well_formed(
            after.structs.len(),
            after.funs.len(),
        ) by {
            assert(project.scopes[i].well_formed(project.structs.len(), project.funs.len()));
        }
        assert forall|i: int| 0 <= i < after.structs.len() implies (#[trigger] after.structs[i]).well_formed(
            after.structs.len(),
            after.scopes.len(),
        ) by {
            assert(project.structs[i].well_formed(project.structs.len(), project.scopes.len()));
        }
        assert forall|i: int| 0 <= i < after.funs.len() implies (#[trigger] after.funs[i]).well_formed(
            after.structs.len(),
        ) by {
            assert(project.funs[i].well_formed(project.structs.len()));
        }
    }
}

/// Giving a function its body grows the project and, where the body and the
/// return type mention existing records only, keeps it well formed.
pub proof fn lemma_with_body(
    project: ProjectView,
    function_id: FunctionId,
    block: CheckedBlockView,
    return_type: TypeView,
)
    requires
        function_id < project.funs.len(),
    ensures
        project.grows_to(project.with_body(function_id, block, return_type)),
        project.well_formed() && block.in_range(project.structs.len()) && return_type.in_range(
            project.structs.len(),
        ) ==> project.with_body(function_id, block, return_type).well_formed(),
{
    let after = project.with_body(function_id, block, return_type);
    if project.well_formed() && block.in_range(project.structs.len()) && return_type.in_range(
        project.structs.len(),
    ) {
        assert forall|i: int| 0 <= i < after.scopes.len() implies (#[trigger] after.scopes[i]).well_formed(
            after.structs.len(),
            after.funs.len(),
        ) by {
            assert(project.scopes[i].well_formed(project.structs.len(), project.funs.len()));
        }
        assert forall|i: int| 0 <= i < after.funs.len() implies (#[trigger] after.funs[i]).well_formed(
            after.structs.len(),
        ) by {
            assert(project.funs[i].well_formed(project.structs.len()));
        }
    }
}

/// A name that refers to a function from a scope still refers to one from
/// that scope after the project has grown.
pub proof fn lemma_function_stays_findable(
    project: ProjectView,
    later: ProjectView,
    scope_id: ScopeId,
    name: Seq<char>,
)
    requires
        project.grows_to(later),
        project.find_function_in_scope(scope_id, name) is Some,
    ensures
        later.find_function_in_scope(scope_id, name) is Some,
    decreases scope_id,
{
    let scope = project.scopes[scope_id as int];
    assert(scope.within(later.scopes[scope_id as int]));
    if bound_to(scope.funs, name) is Some {
        lemma_binding_survives(scope.funs, later.scopes[scope_id as int].funs, name);
    } else if bound_to(later.scopes[scope_id as int].funs, name) is None {
        lemma_function_stays_findable(project, later, scope.parent.unwrap(), name);
    }
}


impl ProjectView {
    /// Nothing in the project is left to inference: `Unknown` occurs in the
    /// type of no variable, in no return type and in the type of no field.
    pub open spec fn fully_typed(self) -> bool {
        &&& forall|i: int, j: int|
            0 <= i < self.scopes.len() && 0 <= j < self.scopes[i].vars.len() ==> (
            #[trigger] self.scopes[i].vars[j]).ty.fully_known()
        &&& forall|i: int|
            0 <= i < self.funs.len() ==> (#[trigger] self.funs[i]).return_type.fully_known()
        &&& forall|i: int, j: int|
            0 <= i < self.structs.len() && 0 <= j < self.structs[i].fields.len() ==> (
            #[trigger] self.structs[i].fields[j]).ty.fully_known()
    }
}

/// In a fully typed project, `Unknown` occurs nowhere in the type of a
/// variable found by name.
pub proof fn lemma_found_var_fully_known(project: ProjectView, scope_id: ScopeId, name: Seq<char>)
    requires
        project.fully_typed(),
    ensures
        project.find_var_in_scope(scope_id, name) matches Some(v) ==> v.ty.fully_known(),
    decreases scope_id,
{
    if scope_id < project.scopes.len() {
        let scope = project.scopes[scope_id as int];
        lemma_position_is_first(variable_names(scope.vars), name, 0);
        match position(variable_names(scope.vars), name, 0) {
            Some(at) => {
                assert(project.scopes[scope_id as int].vars[at].ty.fully_known());
            },
            None => {
                if scope.parent is Some && scope.parent.unwrap() < scope_id {
                    lemma_found_var_fully_known(project, scope.parent.unwrap(), name);
                }
            },
        }
    }
}

/// Copies a sequence of bindings.
fn copy_bindings(bindings: &Vec<(String, usize)>) -> (copies: Vec<(String, usize)>)
    ensures
        binding_views(copies@) == binding_views(bindings@),
{
    let mut copies: Vec<(String, usize)> = Vec::new();
    let mut i: usize = 0;
    while i < bindings.len()
        invariant
            i <= bindings.len(),
            copies@.len() == i,
            forall|j: int|
                0 <= j < i ==> copies@[j].0@ == bindings@[j].0@ && copies@[j].1 == bindings@[j].1,
        decreases bindings.len() - i,
    {
        copies.push((bindings[i].0.clone(), bindings[i].1));
        i += 1;
    }
    assert(binding_views(copies@) =~= binding_views(bindings@));
    copies
}

impl Clone for Scope {
    fn clone(&self) -> (copy: Self)
        ensures
            copy@ == self@,
    {
        let mut vars: Vec<CheckedVariable> = Vec::new();
        let mut i: usize = 0;
        while i < self.vars.len()
            invariant
                i <= self.vars.len(),
                vars@.len() == i,
                forall|j: int| 0 <= j < i ==> vars@[j]@ == self.vars@[j]@,
            decreases self.vars.len() - i,
        {
            vars.push(self.vars[i].clone());
            i += 1;
        }
        assert(views(vars@) =~= views(self.vars@));
        Scope {
            vars,
            structs: copy_bindings(&self.structs),
            funs: copy_bindings(&self.funs),
            parent: self.parent,
        }
    }
}

impl Clone for Project {
    fn clone(&self) -> (copy: Self)
        ensures
            copy@ == self@,
    {
        let mut funs: Vec<CheckedFunction> = Vec::new();
        let mut i: usize = 0;
        while i < self.funs.len()
            invariant
                i <= self.funs.len(),
                funs@.len() == i,
                forall|j: int| 0 <= j < i ==> funs@[j]@ == self.funs@[j]@,
            decreases self.funs.len() - i,
        {
            funs.push(self.funs[i].clone());
            i += 1;
        }
        let mut structs: Vec<CheckedStruct> = Vec::new();
        let mut i: usize = 0;
        while i < self.structs.len()
            invariant
                i <= self.structs.len(),
                structs@.len() == i,
                forall|j: int| 0 <= j < i ==> structs@[j]@ == self.structs@[j]@,
            decreases self.structs.len() - i,
        {
            structs.push(self.structs[i].clone());
            i += 1;
        }
        let mut scopes: Vec<Scope> = Vec::new();
        let mut i: usize = 0;
        while i < self.scopes.len()
            invariant
                i <= self.scopes.len(),
                scopes@.len() == i,
                forall|j: int| 0 <= j < i ==> scopes@[j]@ == self.scopes@[j]@,
            decreases self.scopes.len() - i,
        {
            scopes.push(self.scopes[i].clone());
            i += 1;
        }
        assert(views(funs@) =~= views(self.funs@));
        assert(views(structs@) =~= views(self.structs@));
        assert(views(scopes@) =~= views(self.scopes@));
        Project { funs, structs, scopes }
    }
}

} // verus!
