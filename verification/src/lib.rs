//! Turns a described function into a callable tool: a descriptor that can be
//! rendered as text, and an adapter that converts textual arguments, runs the
//! function and reports its result as text.

pub mod text;
pub mod model;
pub mod descriptor;
pub mod capability;
pub mod adapter;
pub mod docs;
pub mod signature;
pub mod source;
pub mod codegen;
