//! Recognition of well-known C idioms during the conversion of a C program to
//! Rust: for an assignment or a call whose shape and type guidance allow it,
//! the library proposes an idiomatic replacement for the literal rendering.

pub mod assignment;
pub mod c_ast;
pub mod calls;
pub mod casts;
pub mod emission;
pub mod guidance;
pub mod guided;
pub mod guided_calls;
pub mod guided_emit;
pub mod laws;
pub mod registry;
pub mod scanf;
pub mod shape;
pub mod target;
pub mod text;
pub mod translation;
