//! A small compiler backend for a C-like integer language targeting ARM64
//! (AAPCS64). The library lexes and parses source text, optionally folds
//! constants, validates calls, and lowers the syntax tree to assembly text
//! through a register/stack allocator, a label generator and a stack-usage
//! simulator.

pub mod ast;
pub mod generator;
pub mod laws;
pub mod lexer;
pub mod optimizer;
pub mod parser;
pub mod text;
