//! Syntax tree of the source language: expressions, statements, declarations,
//! functions and whole programs. The parser produces these trees; the constant
//! folder rewrites them; code generation consumes them read-only.

use vstd::prelude::*;

verus! {

/// Unary operator of the source language.
#[derive(Debug, Clone, Copy, PartialEq, Eq, Structural)]
pub enum UnaryOp {
    /// Arithmetic negation `-`
    Neg,
    /// Logical not `!`
    Not,
    /// Bitwise not `~`
    BitNot,
}

/// Binary operator of the source language.
#[derive(Debug, Clone, Copy, PartialEq, Eq, Structural)]
pub enum BinaryOp {
    /// `+`
    Add,
    /// `-`
    Sub,
    /// `*`
    Multiply,
    /// `/`
    Divide,
    /// `>`
    Greater,
    /// `<`
    Less,
    /// `>=`
    GreaterEqual,
    /// `<=`
    LessEqual,
    /// `==`
    Equal,
    /// `!=`
    NotEqual,
    /// `&&` (short-circuit)
    LogicalAnd,
    /// `||` (short-circuit)
    LogicalOr,
    /// Bitwise `|`
    Or,
    /// Bitwise `&`
    And,
    /// Bitwise `^`
    Xor,
    /// `>>`
    ShiftRight,
    /// `<<`
    ShiftLeft,
    /// `%`
    Modulo,
}

/// Expression node. Immutable tree, consumed read-only by code generation.
#[derive(Debug, PartialEq)]
pub enum Expr {
    /// Integer literal
    Const(i32),
    /// Unary operation
    UnOp(UnaryOp, Box<Expr>),
    /// Binary operation
    BinOp(BinaryOp, Box<Expr>, Box<Expr>),
    /// Variable reference by name
    Var(String),
    /// Assignment `name = value`
    Assign(String, Box<Expr>),
    /// Ternary `cond ? then : els`
    Conditional { cond: Box<Expr>, then: Box<Expr>, els: Box<Expr> },
    /// Function call
    FunCall { name: String, parameters: Vec<Expr> },
}

/// Statement node.
#[derive(Debug, PartialEq)]
pub enum Statement {
    /// `return expr;`
    Return(Expr),
    /// Expression statement, possibly empty (`;`)
    Expr(Option<Expr>),
    /// `if (cond) then [else els]`
    If { cond: Expr, then: Box<Statement>, els: Option<Box<Statement>> },
    /// Compound block `{ ... }`
    Compound(Vec<BlockItem>),
    /// Debug-print intrinsic: prints the value of the expression
    Bingus(Expr),
    /// `for (init; cond; post) body` with an expression initializer
    For { init: Option<Expr>, cond: Expr, post: Option<Expr>, body: Box<Statement> },
    /// `for (decl; cond; post) body` with a declaration initializer
    ForDecl { decl: Declaration, cond: Expr, post: Option<Expr>, body: Box<Statement> },
    /// `while (cond) body`
    While { cond: Expr, body: Box<Statement> },
    /// `do body while (cond);`
    Do { body: Box<Statement>, cond: Expr },
    /// `break;`
    Break,
    /// `continue;`
    Continue,
}

/// Variable declaration with an optional initializer.
#[derive(Debug, PartialEq)]
pub enum Declaration {
    Declare(String, Option<Expr>),
}

/// One item of a compound block: a statement or a declaration.
#[derive(Debug, PartialEq)]
pub enum BlockItem {
    Stmt(Statement),
    Decl(Declaration),
}

/// A function declaration (no body) or definition (with body).
#[derive(Debug, PartialEq)]
pub struct Function {
    pub name: String,
    pub params: Vec<String>,
    pub block_items: Option<Vec<BlockItem>>,
}

/// A top-level item: a function or a global variable declaration.
#[derive(Debug, PartialEq)]
pub enum TopLevel {
    Function(Function),
    GlobalVariable(Declaration),
}

/// A whole program: the ordered list of top-level items.
#[derive(Debug, PartialEq)]
pub struct Program {
    pub toplevel_items: Vec<TopLevel>,
}

} // verus!
