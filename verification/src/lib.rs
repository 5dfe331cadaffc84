//! Semantic validation of variable declarations for the Surf language.
//!
//! This crate sits between the lexer (which produces a token stream) and the
//! code-emission stage. It checks that a variable declaration has the shape
//! `name : type =`, that the name is a fresh, well-formed identifier, and that
//! the type is either a built-in data type or a class exported by an imported
//! header. Fatal findings are reported as typed errors; style advice is
//! collected as warnings that never affect control flow.

pub mod diagnostics;
pub mod header_checker;
pub mod import_transpiler;
pub mod ident;
pub mod symbols;
pub mod token;
pub mod variable_checker;
