//! A verified front end and evaluation core for a small line-oriented
//! turtle-graphics language: `TO`/`END` declarations, bracketed `IF`/`WHILE`
//! blocks, prefix-notation expressions, and turtle motion, pen and color
//! commands.  The parser, the two-phase structural validator, the function
//! table, the evaluation step machine and the source-emitting transpiler all
//! live here with full contracts; numeric work and drawing are performed by
//! the caller, which drives the step machine and hands each result back as a
//! plain value.

pub mod assign;
pub mod decl;
pub mod err;
pub mod expr;
pub mod generation;
pub mod parse;
pub mod stmt;
pub mod structs;
pub mod text;
pub mod transpiler;
pub mod variable;

pub use text::check_name;
