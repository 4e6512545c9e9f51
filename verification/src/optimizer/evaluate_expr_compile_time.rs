//! Compile-time evaluation of constant expressions, with the wrapping
//! two's-complement arithmetic of the target's word width.

use crate::ast::{BinaryOp, Expr, UnaryOp};
use vstd::prelude::*;

verus! {

/// Why an expression has no compile-time value.
#[derive(Debug, Clone, Copy, PartialEq, Eq, Structural)]
pub enum EvalError {
    /// Variables have no compile-time value.
    Variable,
    /// Assignments are not allowed in compile-time expressions.
    Assignment,
    /// Function calls are not allowed in compile-time expressions.
    FunctionCall,
    /// Division by zero in a constant expression.
    DivisionByZero,
    /// Modulo by zero in a constant expression.
    ModuloByZero,
}

/// Two's-complement negation: the minimum value is its own negation.
pub open spec fn sneg32(v: i32) -> i32 {
    if v == i32::MIN {
        i32::MIN
    } else {
        (-v) as i32
    }
}

/// Bitwise complement, as arithmetic: `!v == -1 - v`.
pub open spec fn snot32(v: i32) -> i32 {
    (-1 - v) as i32
}

/// Truncated signed division, wrapping on the single overflowing case.
pub open spec fn sdiv32(l: i32, r: i32) -> i32
    recommends
        r != 0,
{
    let la: int = if l < 0 {
        -(l as int)
    } else {
        l as int
    };
    let ra: int = if r < 0 {
        -(r as int)
    } else {
        r as int
    };
    let q = la / ra;
    if (l < 0) != (r < 0) {
        (-q) as i32
    } else if q == 0x8000_0000 {
        i32::MIN
    } else {
        q as i32
    }
}

/// The remainder matching truncated division: its sign follows the
/// dividend.
pub open spec fn srem32(l: i32, r: i32) -> i32
    recommends
        r != 0,
{
    let la: int = if l < 0 {
        -(l as int)
    } else {
        l as int
    };
    let ra: int = if r < 0 {
        -(r as int)
    } else {
        r as int
    };
    let rm = la % ra;
    if l < 0 {
        (-rm) as i32
    } else {
        rm as i32
    }
}

/// Logical right shift by the low five bits of the shift amount.
pub open spec fn sshr32(l: i32, r: i32) -> i32 {
    let sh = (r & 31) as u32;
    if sh < 32 {
        ((l as u32) >> sh) as i32
    } else {
        0
    }
}

/// Exact compile-time value of an expression: literals and operators only,
/// with wrapping word arithmetic; of a conditional, only the taken branch
/// is evaluated.
pub open spec fn seval(e: Expr) -> Result<i32, EvalError>
    decreases e,
{
    match e {
        Expr::Const(n) => Ok(n),
        Expr::Var(_) => Err(EvalError::Variable),
        Expr::UnOp(op, inner) => match seval(*inner) {
            Ok(v) => match op {
                UnaryOp::Neg => Ok(sneg32(v)),
                UnaryOp::BitNot => Ok(snot32(v)),
                UnaryOp::Not => Ok(
                    if v == 0 {
                        1
                    } else {
                        0
                    },
                ),
            },
            Err(er) => Err(er),
        },
        Expr::BinOp(op, lhs, rhs) => match seval(*lhs) {
            Ok(l) => match seval(*rhs) {
                Ok(r) => match op {
                    BinaryOp::Add => Ok(l.wrapping_add(r)),
                    BinaryOp::Sub => Ok(l.wrapping_sub(r)),
                    BinaryOp::Multiply => Ok(l.wrapping_mul(r)),
                    BinaryOp::And => Ok(l & r),
                    BinaryOp::Or => Ok(l | r),
                    BinaryOp::Xor => Ok(l ^ r),
                    BinaryOp::LogicalAnd => Ok(
                        if l != 0 && r != 0 {
                            1
                        } else {
                            0
                        },
                    ),
                    BinaryOp::LogicalOr => Ok(
                        if l != 0 || r != 0 {
                            1
                        } else {
                            0
                        },
                    ),
                    BinaryOp::Equal => Ok(
                        if l == r {
                            1
                        } else {
                            0
                        },
                    ),
                    BinaryOp::NotEqual => Ok(
                        if l != r {
                            1
                        } else {
                            0
                        },
                    ),
                    BinaryOp::Less => Ok(
                        if l < r {
                            1
                        } else {
                            0
                        },
                    ),
                    BinaryOp::LessEqual => Ok(
                        if l <= r {
                            1
                        } else {
                            0
                        },
                    ),
                    BinaryOp::Greater => Ok(
                        if l > r {
                            1
                        } else {
                            0
                        },
                    ),
                    BinaryOp::GreaterEqual => Ok(
                        if l >= r {
                            1
                        } else {
                            0
                        },
                    ),
                    BinaryOp::Divide => if r == 0 {
                        Err(EvalError::DivisionByZero)
                    } else {
                        Ok(sdiv32(l, r))
                    },
                    BinaryOp::Modulo => if r == 0 {
                        Err(EvalError::ModuloByZero)
                    } else {
                        Ok(srem32(l, r))
                    },
                    BinaryOp::ShiftLeft => Ok(l.wrapping_shl(r as u32)),
                    BinaryOp::ShiftRight => Ok(sshr32(l, r)),
                },
                Err(er) => Err(er),
            },
            Err(er) => Err(er),
        },
        Expr::Assign(_, _) => Err(EvalError::Assignment),
        Expr::Conditional { cond, then, els } => match seval(*cond) {
            Ok(c) => if c != 0 {
                seval(*then)
            } else {
                seval(*els)
            },
            Err(er) => Err(er),
        },
        Expr::FunCall { .. } => Err(EvalError::FunctionCall),
    }
}

fn neg32(v: i32) -> (r: i32)
    ensures
        r == sneg32(v),
{
    if v == i32::MIN {
        i32::MIN
    } else {
        -v
    }
}

fn div32(l: i32, r: i32) -> (q: i32)
    requires
        r != 0,
    ensures
        q == sdiv32(l, r),
{
    let la: u32 = if l < 0 {
        (-(l as i64)) as u32
    } else {
        l as u32
    };
    let ra: u32 = if r < 0 {
        (-(r as i64)) as u32
    } else {
        r as u32
    };
    let q = la / ra;
    if (l < 0) != (r < 0) {
        (-(q as i64)) as i32
    } else if q == 0x8000_0000 {
        i32::MIN
    } else {
        q as i32
    }
}

fn rem32(l: i32, r: i32) -> (m: i32)
    requires
        r != 0,
    ensures
        m == srem32(l, r),
{
    let la: u32 = if l < 0 {
        (-(l as i64)) as u32
    } else {
        l as u32
    };
    let ra: u32 = if r < 0 {
        (-(r as i64)) as u32
    } else {
        r as u32
    };
    let rm = la % ra;
    if l < 0 {
        (-(rm as i64)) as i32
    } else {
        rm as i32
    }
}

/// Evaluates an expression at compile time, or says why it has no
/// compile-time value.
pub fn evaluate_compile_time_expr(expr: &Expr) -> (r: Result<i32, EvalError>)
    ensures
        r == seval(*expr),
    decreases *expr,
{
    match expr {
        Expr::Const(n) => Ok(*n),
        Expr::Var(_) => Err(EvalError::Variable),
        Expr::UnOp(op, inner) => {
            let v = match evaluate_compile_time_expr(inner) {
                Ok(v) => v,
                Err(er) => {
                    return Err(er);
                },
            };
            match op {
                UnaryOp::Neg => Ok(neg32(v)),
                UnaryOp::BitNot => Ok(-1 - v),
                UnaryOp::Not => Ok(
                    if v == 0 {
                        1
                    } else {
                        0
                    },
                ),
            }
        },
        Expr::BinOp(op, lhs, rhs) => {
            let l = match evaluate_compile_time_expr(lhs) {
                Ok(v) => v,
                Err(er) => {
                    return Err(er);
                },
            };
            let r = match evaluate_compile_time_expr(rhs) {
                Ok(v) => v,
                Err(er) => {
                    return Err(er);
                },
            };
            match op {
                BinaryOp::Add => Ok(l.wrapping_add(r)),
                BinaryOp::Sub => Ok(l.wrapping_sub(r)),
                BinaryOp::Multiply => Ok(l.wrapping_mul(r)),
                BinaryOp::And => Ok(l & r),
                BinaryOp::Or => Ok(l | r),
                BinaryOp::Xor => Ok(l ^ r),
                BinaryOp::LogicalAnd => Ok(
                    if l != 0 && r != 0 {
                        1
                    } else {
                        0
                    },
                ),
                BinaryOp::LogicalOr => Ok(
                    if l != 0 || r != 0 {
                        1
                    } else {
                        0
                    },
                ),
                BinaryOp::Equal => Ok(
                    if l == r {
                        1
                    } else {
                        0
                    },
                ),
                BinaryOp::NotEqual => Ok(
                    if l != r {
                        1
                    } else {
                        0
                    },
                ),
                BinaryOp::Less => Ok(
                    if l < r {
                        1
                    } else {
                        0
                    },
                ),
                BinaryOp::LessEqual => Ok(
                    if l <= r {
                        1
                    } else {
                        0
                    },
                ),
                BinaryOp::Greater => Ok(
                    if l > r {
                        1
                    } else {
                        0
                    },
                ),
                BinaryOp::GreaterEqual => Ok(
                    if l >= r {
                        1
                    } else {
                        0
                    },
                ),
                BinaryOp::Divide => {
                    if r == 0 {
                        Err(EvalError::DivisionByZero)
                    } else {
                        Ok(div32(l, r))
                    }
                },
                BinaryOp::Modulo => {
                    if r == 0 {
                        Err(EvalError::ModuloByZero)
                    } else {
                        Ok(rem32(l, r))
                    }
                },
                BinaryOp::ShiftLeft => Ok(l.wrapping_shl(r as u32)),
                BinaryOp::ShiftRight => {
                    let sh = (r & 31) as u32;
                    proof {
                        assert(sh < 32) by (bit_vector)
                            requires
                                sh == (r & 31) as u32,
                        ;
                    }
                    Ok(((l as u32) >> sh) as i32)
                },
            }
        },
        Expr::Assign(_, _) => Err(EvalError::Assignment),
        Expr::Conditional { cond, then, els } => {
            let c = match evaluate_compile_time_expr(cond) {
                Ok(v) => v,
                Err(er) => {
                    return Err(er);
                },
            };
            if c != 0 {
                evaluate_compile_time_expr(then)
            } else {
                evaluate_compile_time_expr(els)
            }
        },
        Expr::FunCall { .. } => Err(EvalError::FunctionCall),
    }
}

} // verus!
