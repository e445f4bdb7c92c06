//! Resolution of a written type to a checked type.

use crate::error::{error_view, typecheck_error, JaktError, JaktErrorView, Span};
use crate::text::str_eq;
use crate::project::{lemma_found_struct_exists, Project, ProjectView};
use crate::syntax::UncheckedType;
use crate::types::{ScopeId, Type, TypeView};
use vstd::prelude::*;

verus! {

/// The built-in type that a name stands for, if it is the name of one.
pub open spec fn primitive_type(name: Seq<char>) -> Option<TypeView> {
    if name == "i8"@ {
        Some(TypeView::I8)
    } else if name == "i16"@ {
        Some(TypeView::I16)
    } else if name == "i32"@ {
        Some(TypeView::I32)
    } else if name == "i64"@ {
        Some(TypeView::I64)
    } else if name == "u8"@ {
        Some(TypeView::U8)
    } else if name == "u16"@ {
        Some(TypeView::U16)
    } else if name == "u32"@ {
        Some(TypeView::U32)
    } else if name == "u64"@ {
        Some(TypeView::U64)
    } else if name == "f32"@ {
        Some(TypeView::F32)
    } else if name == "f64"@ {
        Some(TypeView::F64)
    } else if name == "c_char"@ {
        Some(TypeView::CChar)
    } else if name == "c_int"@ {
        Some(TypeView::CInt)
    } else if name == "String"@ {
        Some(TypeView::String)
    } else if name == "bool"@ {
        Some(TypeView::Bool)
    } else if name == "void"@ {
        Some(TypeView::Void)
    } else {
        None
    }
}

/// The type that a written type resolves to from scope `scope_id`, and the
/// diagnostic where a name in it is neither built in nor a record in sight.
/// No written type resolves to `Unknown` without a diagnostic, except the
/// empty one, which asks for inference.
pub open spec fn resolve_typename(
    unchecked_type: UncheckedType,
    scope_id: ScopeId,
    project: ProjectView,
) -> (TypeView, Option<JaktErrorView>)
    decreases unchecked_type,
{
    match unchecked_type {
        UncheckedType::Name(name, span) => match primitive_type(name@) {
            Some(ty) => (ty, None),
            None => match project.find_struct_in_scope(scope_id, name@) {
                Some(struct_id) => (TypeView::Struct(struct_id), None),
                None => (
                    TypeView::Unknown,
                    Some(JaktErrorView::TypecheckError("unknown type"@, span)),
                ),
            },
        },
        UncheckedType::Empty => (TypeView::Unknown, None),
        UncheckedType::Vector(inner, _) => {
            let resolved = resolve_typename(*inner, scope_id, project);
            (TypeView::Vector(Box::new(resolved.0)), resolved.1)
        },
        UncheckedType::Optional(inner, _) => {
            let resolved = resolve_typename(*inner, scope_id, project);
            (TypeView::Optional(Box::new(resolved.0)), resolved.1)
        },
        UncheckedType::RawPtr(inner, _) => {
            let resolved = resolve_typename(*inner, scope_id, project);
            (TypeView::RawPtr(Box::new(resolved.0)), resolved.1)
        },
    }
}

/// In a well-formed project, a resolved type mentions existing records only.
pub proof fn lemma_resolved_type_in_range(
    unchecked_type: UncheckedType,
    scope_id: ScopeId,
    project: ProjectView,
)
    requires
        project.well_formed(),
    ensures
        resolve_typename(unchecked_type, scope_id, project).0.in_range(project.structs.len()),
    decreases unchecked_type,
{
    match unchecked_type {
        UncheckedType::Name(name, _) => {
            lemma_found_struct_exists(project, scope_id, name@);
        },
        UncheckedType::Empty => {},
        UncheckedType::Vector(inner, _) => lemma_resolved_type_in_range(*inner, scope_id, project),
        UncheckedType::Optional(inner, _) => lemma_resolved_type_in_range(
            *inner,
            scope_id,
            project,
        ),
        UncheckedType::RawPtr(inner, _) => lemma_resolved_type_in_range(*inner, scope_id, project),
    }
}

/// A built-in name resolves to its type whatever the scope and the project,
/// and without a diagnostic.
pub proof fn lemma_primitive_names_are_fixed(
    name: String,
    span: Span,
    scope_id: ScopeId,
    project: ProjectView,
)
    requires
        primitive_type(name@) is Some,
    ensures
        resolve_typename(UncheckedType::Name(name, span), scope_id, project) == (
            primitive_type(name@).unwrap(),
            None::<JaktErrorView>,
        ),
{
}

fn primitive_by_name(name: &str) -> (ty: Option<Type>)
    ensures
        match ty {
            Some(t) => primitive_type(name@) == Some(t@),
            None => primitive_type(name@) is None,
        },
{
    if str_eq(name, "i8") {
        Some(Type::I8)
    } else if str_eq(name, "i16") {
        Some(Type::I16)
    } else if str_eq(name, "i32") {
        Some(Type::I32)
    } else if str_eq(name, "i64") {
        Some(Type::I64)
    } else if str_eq(name, "u8") {
        Some(Type::U8)
    } else if str_eq(name, "u16") {
        Some(Type::U16)
    } else if str_eq(name, "u32") {
        Some(Type::U32)
    } else if str_eq(name, "u64") {
        Some(Type::U64)
    } else if str_eq(name, "f32") {
        Some(Type::F32)
    } else if str_eq(name, "f64") {
        Some(Type::F64)
    } else if str_eq(name, "c_char") {
        Some(Type::CChar)
    } else if str_eq(name, "c_int") {
        Some(Type::CInt)
    } else if str_eq(name, "String") {
        Some(Type::String)
    } else if str_eq(name, "bool") {
        Some(Type::Bool)
    } else if str_eq(name, "void") {
        Some(Type::Void)
    } else {
        None
    }
}

/// Resolves a written type from scope `scope_id`.
pub fn typecheck_typename(unchecked_type: &UncheckedType, scope_id: ScopeId, project: &Project) -> (checked:
    (Type, Option<JaktError>))
    requires
        project@.linked(),
        scope_id < project@.scopes.len(),
    ensures
        checked.0@ == resolve_typename(*unchecked_type, scope_id, project@).0,
        error_view(checked.1) == resolve_typename(*unchecked_type, scope_id, project@).1,
        project@.well_formed() ==> checked.0@.in_range(project@.structs.len()),
    decreases unchecked_type,
{
    proof {
        if project@.well_formed() {
            lemma_resolved_type_in_range(*unchecked_type, scope_id, project@);
        }
    }
    match unchecked_type {
        UncheckedType::Name(name, span) => match primitive_by_name(name.as_str()) {
            Some(ty) => (ty, None),
            None => {
                let structure = project.find_struct_in_scope(scope_id, name.as_str());
                match structure {
                    Some(struct_id) => (Type::Struct(struct_id), None),
                    None => (Type::Unknown, Some(typecheck_error("unknown type", *span))),
                }
            },
        },
        UncheckedType::Empty => (Type::Unknown, None),
        UncheckedType::Vector(inner, _) => {
            let (inner_ty, err) = typecheck_typename(inner, scope_id, project);
            (Type::Vector(Box::new(inner_ty)), err)
        },
        UncheckedType::Optional(inner, _) => {
            let (inner_ty, err) = typecheck_typename(inner, scope_id, project);
            (Type::Optional(Box::new(inner_ty)), err)
        },
        UncheckedType::RawPtr(inner, _) => {
            let (inner_ty, err) = typecheck_typename(inner, scope_id, project);
            (Type::RawPtr(Box::new(inner_ty)), err)
        },
    }
}

/// The written type leaves nothing to inference: the empty type occurs
/// nowhere in it.
pub open spec fn written_in_full(unchecked_type: UncheckedType) -> bool
    decreases unchecked_type,
{
    match unchecked_type {
        UncheckedType::Name(_, _) => true,
        UncheckedType::Empty => false,
        UncheckedType::Vector(inner, _) => written_in_full(*inner),
        UncheckedType::Optional(inner, _) => written_in_full(*inner),
        UncheckedType::RawPtr(inner, _) => written_in_full(*inner),
    }
}

/// A type written in full that resolves without a diagnostic resolves to a
/// type in which `Unknown` occurs nowhere.
pub proof fn lemma_resolved_type_fully_known(
    unchecked_type: UncheckedType,
    scope_id: ScopeId,
    project: ProjectView,
)
    requires
        written_in_full(unchecked_type),
        resolve_typename(unchecked_type, scope_id, project).1 is None,
    ensures
        resolve_typename(unchecked_type, scope_id, project).0.fully_known(),
    decreases unchecked_type,
{
    match unchecked_type {
        UncheckedType::Name(_, _) => {},
        UncheckedType::Empty => {},
        UncheckedType::Vector(inner, _) => lemma_resolved_type_fully_known(
            *inner,
            scope_id,
            project,
        ),
        UncheckedType::Optional(inner, _) => lemma_resolved_type_fully_known(
            *inner,
            scope_id,
            project,
        ),
        UncheckedType::RawPtr(inner, _) => lemma_resolved_type_fully_known(
            *inner,
            scope_id,
            project,
        ),
    }
}

} // verus!
