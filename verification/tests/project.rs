use typechecker::checked::{CheckedBlock, CheckedFunction, CheckedParameter, CheckedVariable};
use typechecker::error::Span;
use typechecker::project::{Project, Scope};
use typechecker::syntax::FunctionLinkage;
use typechecker::types::Type;

fn project_span(n: usize) -> Span {
    Span::new(0, n, n + 1)
}

fn project_var(name: &str, ty: Type, mutable: bool) -> CheckedVariable {
    CheckedVariable { name: name.to_string(), ty, mutable }
}

#[test]
fn new_project_has_only_the_top_level_scope() {
    let project = Project::new();
    assert_eq!(project.scopes.len(), 1);
    assert!(project.scopes[0].parent.is_none());
    assert!(project.scopes[0].vars.is_empty());
    assert!(project.scopes[0].structs.is_empty());
    assert!(project.scopes[0].funs.is_empty());
    assert!(project.funs.is_empty());
    assert!(project.structs.is_empty());
}

#[test]
fn new_scope_is_empty() {
    let scope = Scope::new(Some(3));
    assert_eq!(scope.parent, Some(3));
    assert!(scope.vars.is_empty() && scope.structs.is_empty() && scope.funs.is_empty());
    assert!(CheckedBlock::new().stmts.is_empty());
}

#[test]
fn create_scope_returns_consecutive_ids_below_the_parent() {
    let mut project = Project::new();
    let a = project.create_scope(0);
    let b = project.create_scope(a);
    let c = project.create_scope(0);
    assert_eq!((a, b, c), (1, 2, 3));
    assert_eq!(project.scopes[1].parent, Some(0));
    assert_eq!(project.scopes[2].parent, Some(1));
    assert_eq!(project.scopes[3].parent, Some(0));
}

#[test]
fn every_scope_walks_up_to_the_top_level_scope() {
    let mut project = Project::new();
    let mut last = 0;
    for _ in 0..10 {
        last = project.create_scope(last);
    }
    for start in 0..project.scopes.len() {
        let mut current = start;
        let mut steps = 0;
        while let Some(parent) = project.scopes[current].parent {
            assert!(parent < current);
            current = parent;
            steps += 1;
        }
        assert_eq!(current, 0);
        assert_eq!(steps, start);
    }
}

#[test]
fn variable_is_found_in_the_scope_and_in_scopes_below_it() {
    let mut project = Project::new();
    let outer = project.create_scope(0);
    let inner = project.create_scope(outer);
    let sibling = project.create_scope(0);
    assert!(project
        .add_var_to_scope(outer, project_var("x", Type::I32, true), project_span(1))
        .is_ok());
    let found = project.find_var_in_scope(inner, "x").unwrap();
    assert_eq!(found.name, "x");
    assert_eq!(found.ty, Type::I32);
    assert!(found.mutable);
    assert!(project.find_var_in_scope(outer, "x").is_some());
    assert!(project.find_var_in_scope(sibling, "x").is_none());
    assert!(project.find_var_in_scope(0, "x").is_none());
    assert!(project.find_var_in_scope(inner, "y").is_none());
}

#[test]
fn inner_declaration_shadows_the_outer_one() {
    let mut project = Project::new();
    let inner = project.create_scope(0);
    project.add_var_to_scope(0, project_var("x", Type::I32, false), project_span(1)).unwrap();
    project.add_var_to_scope(inner, project_var("x", Type::Bool, true), project_span(2)).unwrap();
    assert_eq!(project.find_var_in_scope(inner, "x").unwrap().ty, Type::Bool);
    assert_eq!(project.find_var_in_scope(0, "x").unwrap().ty, Type::I32);
}

#[test]
fn second_variable_of_one_name_is_refused_and_the_first_stays() {
    let mut project = Project::new();
    project.add_var_to_scope(0, project_var("x", Type::I32, false), project_span(1)).unwrap();
    let error = project
        .add_var_to_scope(0, project_var("x", Type::Bool, true), project_span(9))
        .unwrap_err();
    assert_eq!(error.message(), "redefinition of x");
    assert_eq!(error.span(), project_span(9));
    assert_eq!(project.scopes[0].vars.len(), 1);
    assert_eq!(project.find_var_in_scope(0, "x").unwrap().ty, Type::I32);
}

#[test]
fn no_two_variables_of_a_scope_share_a_name() {
    let mut project = Project::new();
    for name in ["a", "b", "a", "c", "b", "a", "d"] {
        let _ = project.add_var_to_scope(0, project_var(name, Type::I8, false), project_span(0));
    }
    let names: Vec<&str> = project.scopes[0].vars.iter().map(|v| v.name.as_str()).collect();
    assert_eq!(names, vec!["a", "b", "c", "d"]);
}

#[test]
fn record_names_are_found_by_walking_up() {
    let mut project = Project::new();
    let inner = project.create_scope(0);
    assert!(project.add_struct_to_scope(0, "Point".to_string(), 4, project_span(1)).is_ok());
    assert_eq!(project.find_struct_in_scope(inner, "Point"), Some(4));
    assert_eq!(project.find_struct_in_scope(0, "Point"), Some(4));
    assert_eq!(project.find_struct_in_scope(inner, "Line"), None);
}

#[test]
fn second_record_of_one_name_is_refused() {
    let mut project = Project::new();
    project.add_struct_to_scope(0, "A".to_string(), 0, project_span(1)).unwrap();
    let error = project.add_struct_to_scope(0, "A".to_string(), 1, project_span(2)).unwrap_err();
    assert_eq!(error.message(), "redefinition of A");
    assert_eq!(error.span(), project_span(2));
    assert_eq!(project.find_struct_in_scope(0, "A"), Some(0));
    assert_eq!(project.scopes[0].structs.len(), 1);
}

#[test]
fn function_names_are_found_by_walking_up() {
    let mut project = Project::new();
    let inner = project.create_scope(0);
    project.funs.push(CheckedFunction {
        name: "f".to_string(),
        return_type: Type::Void,
        params: vec![],
        block: CheckedBlock::new(),
        linkage: FunctionLinkage::Internal,
    });
    assert!(project.add_function_to_scope(0, "f".to_string(), 0, project_span(1)).is_ok());
    assert_eq!(project.find_function_in_scope(inner, "f"), Some(0));
    assert_eq!(project.find_function_in_scope(inner, "g"), None);
    let error = project.add_function_to_scope(0, "f".to_string(), 0, project_span(5)).unwrap_err();
    assert_eq!(error.message(), "redefinition of f");
    assert_eq!(error.span(), project_span(5));
}

#[test]
fn names_of_different_kinds_may_coexist() {
    let mut project = Project::new();
    project.funs.push(CheckedFunction {
        name: "n".to_string(),
        return_type: Type::Void,
        params: vec![],
        block: CheckedBlock::new(),
        linkage: FunctionLinkage::Internal,
    });
    assert!(project.add_function_to_scope(0, "n".to_string(), 0, project_span(1)).is_ok());
    assert!(project.add_var_to_scope(0, project_var("n", Type::I8, false), project_span(2)).is_ok());
    assert!(project.find_function_in_scope(0, "n").is_some());
    assert!(project.find_var_in_scope(0, "n").is_some());
}

#[test]
fn is_static_without_a_receiver() {
    let receiver = CheckedParameter {
        requires_label: false,
        variable: project_var("this", Type::Struct(0), false),
    };
    let other = CheckedParameter {
        requires_label: true,
        variable: project_var("that", Type::I32, false),
    };
    let method = CheckedFunction {
        name: "m".to_string(),
        return_type: Type::Void,
        params: vec![receiver.clone(), other.clone()],
        block: CheckedBlock::new(),
        linkage: FunctionLinkage::Internal,
    };
    let function = CheckedFunction {
        name: "f".to_string(),
        return_type: Type::Void,
        params: vec![other],
        block: CheckedBlock::new(),
        linkage: FunctionLinkage::Internal,
    };
    let late_receiver = CheckedFunction {
        name: "g".to_string(),
        return_type: Type::Void,
        params: vec![
            CheckedParameter {
                requires_label: false,
                variable: project_var("x", Type::I32, false),
            },
            receiver,
        ],
        block: CheckedBlock::new(),
        linkage: FunctionLinkage::Internal,
    };
    assert!(!method.is_static());
    assert!(function.is_static());
    assert!(!late_receiver.is_static());
}
