//! Optional syntax-tree rewrites: compile-time evaluation of constant
//! expressions and whole-program constant folding.

pub mod evaluate_expr_compile_time;
pub mod fold_expr;
