//! Code generation for the `quoin` macros: a verified model of the
//! render tree and the emitters that turn it into framework source text.

pub mod text;
pub mod ast;
pub mod component_ast;
pub mod custom_element;
pub mod effect;
pub mod emit;
pub mod ident;
pub mod laws;
pub mod output_laws;
pub mod tokens;
