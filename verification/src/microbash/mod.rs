//! Microbash: a constrained command language over the sandboxed virtual
//! filesystem. A command line is split into words, parsed into one command,
//! and lowered against the working directory into filesystem instructions.

pub mod lexer;
pub mod parse;
pub mod lower;
pub mod tool;
pub mod publish;
