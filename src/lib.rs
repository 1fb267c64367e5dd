//! A backend emitter: renders a typed intermediate representation of a module
//! as source text in a target systems language.
pub mod ir;
pub mod text;
pub mod types;
pub mod names;
pub mod expr;
pub mod decl;
