//! Compile-time expansion pipeline for peg grammars: a call site supplies
//! grammar text (inline, or as a path relative to the invoking file), the
//! `peg` compiler translates it to generated source code, and the result is
//! wrapped into a named module unit spliced back into the host program.
//!
//! The host compiler's own machinery (token expansion, item parsing,
//! diagnostic rendering, the source registry) stays outside: the library
//! receives its outcomes as plain values and returns the decisions — which
//! text to compile, which path to read and register, which single diagnostic
//! to emit, and whether the expansion yields a module or a placeholder.

pub mod argument;
pub mod compiler;
pub mod diag;
pub mod expand;
pub mod module_unit;
pub mod source_path;
