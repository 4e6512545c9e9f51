//! Code generation: storage allocation, label generation, stack-usage
//! simulation, and lowering of the syntax tree to ARM64 assembly.

pub mod allocator;
pub mod arm64;
pub mod bingus;
pub mod func;
pub mod function_validation;
pub mod instr;
pub mod label;
pub mod stack;
pub mod stmts;
