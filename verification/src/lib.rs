//! Semantic analysis for a small statically typed imperative language.
//!
//! The library takes the parsed form of one source file (record declarations
//! and free functions) and produces a resolved, fully annotated program: every
//! name bound to a declaration, every expression carrying its type, every
//! integer literal narrowed to the width its context asks for, and every raw
//! pointer dereference confirmed to sit inside an unsafe block.
//!
//! Each executable item is specified against a mathematical model of the data
//! it works on (the `...View` types), and verified against that specification.

pub mod error;
pub mod text;
pub mod types;
pub mod constants;
pub mod syntax;
pub mod checked;
pub mod project;
pub mod typename;
pub mod rules;
pub mod expression;
pub mod statement;
pub mod declarations;
pub mod laws;
