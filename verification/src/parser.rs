//! The parser: recursive-descent, precedence-climbing construction of the
//! syntax tree from the token stream. Each parsing function consumes at
//! least one token on success and stays within the token list; the
//! statement parser's result constructor is pinned to the leading token.

use crate::ast::{BinaryOp, BlockItem, Declaration, Expr, Function, Program, Statement, TopLevel, UnaryOp};
use crate::lexer::{Token, TokenV};
use vstd::prelude::*;

verus! {

/// Why parsing failed.
#[derive(Debug, Clone, Copy, PartialEq, Eq, Structural)]
pub enum ParseError {
    /// A specific token was expected and something else (or the end of
    /// input) stood there.
    UnexpectedToken,
    /// An identifier was expected.
    ExpectedIdentifier,
    /// A literal, variable, parenthesis or unary operator was expected.
    ExpectedFactor,
    /// A closing brace with no statement to close.
    UnexpectedCloseBrace,
    /// Only one declaration is allowed in a for-loop initializer.
    MultipleForInitDeclarations,
    /// The end of input came too early.
    UnexpectedEnd,
    /// A top-level item is neither a function nor a global declaration.
    BadTopLevel,
}

/// Token equality, by abstract value.
#[verifier::rlimit(100)]
pub fn token_eq(a: &Token, b: &Token) -> (r: bool)
    ensures
        r == (a@ == b@),
{
    match a {
        Token::Identifier(x) => match b {
            Token::Identifier(y) => crate::text::str_eq(x.as_str(), y.as_str()),
            _ => false,
        },
        Token::IntLiteral(x) => match b {
            Token::IntLiteral(y) => *x == *y,
            _ => false,
        },
        Token::CharLiteral(x) => match b {
            Token::CharLiteral(y) => *x == *y,
            _ => false,
        },
        Token::KeywordInt => matches!(b, Token::KeywordInt),
        Token::KeywordReturn => matches!(b, Token::KeywordReturn),
        Token::KeywordBingus => matches!(b, Token::KeywordBingus),
        Token::KeywordIf => matches!(b, Token::KeywordIf),
        Token::KeywordElse => matches!(b, Token::KeywordElse),
        Token::KeywordWhile => matches!(b, Token::KeywordWhile),
        Token::KeywordFor => matches!(b, Token::KeywordFor),
        Token::KeywordDo => matches!(b, Token::KeywordDo),
        Token::KeywordBreak => matches!(b, Token::KeywordBreak),
        Token::KeywordContinue => matches!(b, Token::KeywordContinue),
        Token::LParen => matches!(b, Token::LParen),
        Token::RParen => matches!(b, Token::RParen),
        Token::LBrace => matches!(b, Token::LBrace),
        Token::RBrace => matches!(b, Token::RBrace),
        Token::Semicolon => matches!(b, Token::Semicolon),
        Token::Minus => matches!(b, Token::Minus),
        Token::Tilde => matches!(b, Token::Tilde),
        Token::Bang => matches!(b, Token::Bang),
        Token::Plus => matches!(b, Token::Plus),
        Token::Asterisk => matches!(b, Token::Asterisk),
        Token::Slash => matches!(b, Token::Slash),
        Token::And => matches!(b, Token::And),
        Token::AndEqual => matches!(b, Token::AndEqual),
        Token::Or => matches!(b, Token::Or),
        Token::OrEqual => matches!(b, Token::OrEqual),
        Token::Xor => matches!(b, Token::Xor),
        Token::XorEqual => matches!(b, Token::XorEqual),
        Token::ShiftLeft => matches!(b, Token::ShiftLeft),
        Token::ShiftLeftEqual => matches!(b, Token::ShiftLeftEqual),
        Token::ShiftRight => matches!(b, Token::ShiftRight),
        Token::ShiftRightEqual => matches!(b, Token::ShiftRightEqual),
        Token::Modulo => matches!(b, Token::Modulo),
        Token::ModuloEqual => matches!(b, Token::ModuloEqual),
        Token::AndAnd => matches!(b, Token::AndAnd),
        Token::OrOr => matches!(b, Token::OrOr),
        Token::EqualEqual => matches!(b, Token::EqualEqual),
        Token::BangEqual => matches!(b, Token::BangEqual),
        Token::Less => matches!(b, Token::Less),
        Token::LessEqual => matches!(b, Token::LessEqual),
        Token::Greater => matches!(b, Token::Greater),
        Token::GreaterEqual => matches!(b, Token::GreaterEqual),
        Token::PlusEqual => matches!(b, Token::PlusEqual),
        Token::MinusEqual => matches!(b, Token::MinusEqual),
        Token::AsteriskEqual => matches!(b, Token::AsteriskEqual),
        Token::SlashEqual => matches!(b, Token::SlashEqual),
        Token::Comma => matches!(b, Token::Comma),
        Token::PlusPlus => matches!(b, Token::PlusPlus),
        Token::MinusMinus => matches!(b, Token::MinusMinus),
        Token::Equal => matches!(b, Token::Equal),
        Token::QuestionMark => matches!(b, Token::QuestionMark),
        Token::Colon => matches!(b, Token::Colon),
    }
}

/// Progress and bounds of every parsing step: the position never leaves the
/// token list, and success consumes at least one token.
pub open spec fn parse_post(
    tokens: Seq<Token>,
    pos0: usize,
    pos1: usize,
    ok: bool,
) -> bool {
    &&& pos0 <= pos1 <= tokens.len()
    &&& (ok ==> pos0 < pos1)
}

/// Consumes the expected token or reports which token stood there.
pub fn expect(tokens: &Vec<Token>, pos: &mut usize, expected: &Token) -> (r: Result<
    (),
    ParseError,
>)
    requires
        *old(pos) <= tokens@.len(),
    ensures
        r is Ok <==> *old(pos) < tokens@.len() && tokens@[*old(pos) as int]@ == expected@,
        r is Ok ==> *final(pos) == *old(pos) + 1,
        r is Err ==> *final(pos) == *old(pos) && r == Result::<(), ParseError>::Err(
            ParseError::UnexpectedToken,
        ),
{
    if *pos < tokens.len() && token_eq(&tokens[*pos], expected) {
        *pos = *pos + 1;
        Ok(())
    } else {
        Err(ParseError::UnexpectedToken)
    }
}

/// Consumes an identifier and returns its name.
pub fn expect_ident(tokens: &Vec<Token>, pos: &mut usize) -> (r: Result<String, ParseError>)
    requires
        *old(pos) <= tokens@.len(),
    ensures
        r is Ok <==> *old(pos) < tokens@.len() && tokens@[*old(pos) as int]@ is Ident,
        r matches Ok(name) ==> *final(pos) == *old(pos) + 1 && tokens@[*old(pos) as int]@
            == TokenV::Ident(name@),
        r is Err ==> *final(pos) == *old(pos) && r == Result::<String, ParseError>::Err(
            ParseError::ExpectedIdentifier,
        ),
{
    if *pos < tokens.len() {
        match &tokens[*pos] {
            Token::Identifier(name) => {
                let name = name.clone();
                *pos = *pos + 1;
                Ok(name)
            },
            _ => Err(ParseError::ExpectedIdentifier),
        }
    } else {
        Err(ParseError::ExpectedIdentifier)
    }
}

fn peek_is(tokens: &Vec<Token>, pos: usize, expected: &Token) -> (r: bool)
    ensures
        r == (pos < tokens@.len() && tokens@[pos as int]@ == expected@),
        tokens@.len() <= usize::MAX,
{
    pos < tokens.len() && token_eq(&tokens[pos], expected)
}

fn parse_factor(tokens: &Vec<Token>, pos: &mut usize) -> (r: Result<Expr, ParseError>)
    requires
        *old(pos) <= tokens@.len(),
    ensures
        parse_post(tokens@, *old(pos), *final(pos), r is Ok),
    decreases tokens@.len() - *pos, 0int,
{
    if *pos >= tokens.len() {
        return Err(ParseError::ExpectedFactor);
    }
    match &tokens[*pos] {
        Token::IntLiteral(n) => {
            let n = *n;
            *pos = *pos + 1;
            Ok(Expr::Const(n))
        },
        Token::LParen => {
            *pos = *pos + 1;
            let e = match parse_expr(tokens, pos) {
                Ok(e) => e,
                Err(er) => {
                    return Err(er);
                },
            };
            if peek_is(tokens, *pos, &Token::RParen) {
                *pos = *pos + 1;
                Ok(e)
            } else {
                Err(ParseError::UnexpectedToken)
            }
        },
        Token::Minus => {
            *pos = *pos + 1;
            match parse_factor(tokens, pos) {
                Ok(inner) => Ok(Expr::UnOp(UnaryOp::Neg, Box::new(inner))),
                Err(er) => Err(er),
            }
        },
        Token::Tilde => {
            *pos = *pos + 1;
            match parse_factor(tokens, pos) {
                Ok(inner) => Ok(Expr::UnOp(UnaryOp::BitNot, Box::new(inner))),
                Err(er) => Err(er),
            }
        },
        Token::Bang => {
            *pos = *pos + 1;
            match parse_factor(tokens, pos) {
                Ok(inner) => Ok(Expr::UnOp(UnaryOp::Not, Box::new(inner))),
                Err(er) => Err(er),
            }
        },
        Token::Identifier(name) => {
            let name = name.clone();
            *pos = *pos + 1;
            Ok(Expr::Var(name))
        },
        _ => Err(ParseError::ExpectedFactor),
    }
}

fn match_binop_level(t: &Token, level: u8) -> (r: Option<BinaryOp>) {
    match level {
        1 => match t {
            Token::Asterisk => Option::Some(BinaryOp::Multiply),
            Token::Slash => Option::Some(BinaryOp::Divide),
            Token::Modulo => Option::Some(BinaryOp::Modulo),
            _ => Option::None,
        },
        2 => match t {
            Token::Plus => Option::Some(BinaryOp::Add),
            Token::Minus => Option::Some(BinaryOp::Sub),
            _ => Option::None,
        },
        3 => match t {
            Token::ShiftRight => Option::Some(BinaryOp::ShiftRight),
            Token::ShiftLeft => Option::Some(BinaryOp::ShiftLeft),
            _ => Option::None,
        },
        4 => match t {
            Token::Less => Option::Some(BinaryOp::Less),
            Token::LessEqual => Option::Some(BinaryOp::LessEqual),
            Token::Greater => Option::Some(BinaryOp::Greater),
            Token::GreaterEqual => Option::Some(BinaryOp::GreaterEqual),
            _ => Option::None,
        },
        5 => match t {
            Token::EqualEqual => Option::Some(BinaryOp::Equal),
            Token::BangEqual => Option::Some(BinaryOp::NotEqual),
            _ => Option::None,
        },
        6 => match t {
            Token::And => Option::Some(BinaryOp::And),
            _ => Option::None,
        },
        7 => match t {
            Token::Xor => Option::Some(BinaryOp::Xor),
            _ => Option::None,
        },
        8 => match t {
            Token::Or => Option::Some(BinaryOp::Or),
            _ => Option::None,
        },
        9 => match t {
            Token::AndAnd => Option::Some(BinaryOp::LogicalAnd),
            _ => Option::None,
        },
        _ => match t {
            Token::OrOr => Option::Some(BinaryOp::LogicalOr),
            _ => Option::None,
        },
    }
}

/// One precedence level of left-associative binary operators: level 1 binds
/// tightest (`* / %`), level 10 loosest (`||`).
fn parse_binary_level(tokens: &Vec<Token>, pos: &mut usize, level: u8) -> (r: Result<
    Expr,
    ParseError,
>)
    requires
        *old(pos) <= tokens@.len(),
        1 <= level <= 10,
    ensures
        parse_post(tokens@, *old(pos), *final(pos), r is Ok),
    decreases tokens@.len() - *pos, level as int,
{
    let mut left = if level == 1 {
        match parse_factor(tokens, pos) {
            Ok(e) => e,
            Err(er) => {
                return Err(er);
            },
        }
    } else {
        match parse_binary_level(tokens, pos, level - 1) {
            Ok(e) => e,
            Err(er) => {
                return Err(er);
            },
        }
    };
    let ghost pos_after_first = *pos;
    loop
        invariant
            *pos <= tokens@.len(),
            *old(pos) < *pos,
            1 <= level <= 10,
        decreases tokens@.len() - *pos,
    {
        if *pos >= tokens.len() {
            break ;
        }
        let op = match match_binop_level(&tokens[*pos], level) {
            Option::Some(op) => op,
            Option::None => {
                break ;
            },
        };
        *pos = *pos + 1;
        let right = if level == 1 {
            match parse_factor(tokens, pos) {
                Ok(e) => e,
                Err(er) => {
                    return Err(er);
                },
            }
        } else {
            match parse_binary_level(tokens, pos, level - 1) {
                Ok(e) => e,
                Err(er) => {
                    return Err(er);
                },
            }
        };
        left = Expr::BinOp(op, Box::new(left), Box::new(right));
    }
    Ok(left)
}

fn parse_conditional_expr(tokens: &Vec<Token>, pos: &mut usize) -> (r: Result<Expr, ParseError>)
    requires
        *old(pos) <= tokens@.len(),
    ensures
        parse_post(tokens@, *old(pos), *final(pos), r is Ok),
    decreases tokens@.len() - *pos, 11int,
{
    let condition = match parse_binary_level(tokens, pos, 10) {
        Ok(e) => e,
        Err(er) => {
            return Err(er);
        },
    };
    if peek_is(tokens, *pos, &Token::QuestionMark) {
        *pos = *pos + 1;
        let then_expr = match parse_expr(tokens, pos) {
            Ok(e) => e,
            Err(er) => {
                return Err(er);
            },
        };
        match expect(tokens, pos, &Token::Colon) {
            Ok(()) => (),
            Err(er) => {
                return Err(er);
            },
        }
        // right-associative
        let else_expr = match parse_conditional_expr(tokens, pos) {
            Ok(e) => e,
            Err(er) => {
                return Err(er);
            },
        };
        Ok(Expr::Conditional {
            cond: Box::new(condition),
            then: Box::new(then_expr),
            els: Box::new(else_expr),
        })
    } else {
        Ok(condition)
    }
}

/// `x = x op e`, the desugared form of the compound assignments and of the
/// increment and decrement operators.
pub open spec fn is_op_assign(e: Expr, x: Seq<char>, op: BinaryOp, rhs: Expr) -> bool {
    &&& e matches Expr::Assign(n, b)
    &&& n@ == x
    &&& *b matches Expr::BinOp(o, l, rr)
    &&& o == op
    &&& *l matches Expr::Var(vn)
    &&& vn@ == x
    &&& *rr == rhs
}

fn assign_bin_op(op: BinaryOp, var_name: &String, expr: Expr) -> (r: Expr)
    ensures
        is_op_assign(r, var_name@, op, expr),
{
    Expr::Assign(
        var_name.clone(),
        Box::new(Expr::BinOp(op, Box::new(Expr::Var(var_name.clone())), Box::new(expr))),
    )
}

/// The compound-assignment operator a token stands for, if any.
pub open spec fn spec_compound_op(t: Token) -> Option<BinaryOp> {
    match t {
        Token::PlusEqual => Option::Some(BinaryOp::Add),
        Token::MinusEqual => Option::Some(BinaryOp::Sub),
        Token::AsteriskEqual => Option::Some(BinaryOp::Multiply),
        Token::SlashEqual => Option::Some(BinaryOp::Divide),
        Token::ModuloEqual => Option::Some(BinaryOp::Modulo),
        Token::OrEqual => Option::Some(BinaryOp::Or),
        Token::AndEqual => Option::Some(BinaryOp::And),
        Token::XorEqual => Option::Some(BinaryOp::Xor),
        Token::ShiftLeftEqual => Option::Some(BinaryOp::ShiftLeft),
        Token::ShiftRightEqual => Option::Some(BinaryOp::ShiftRight),
        _ => Option::None,
    }
}

fn token_to_binop(token: &Token) -> (r: Option<BinaryOp>)
    ensures
        r == spec_compound_op(*token),
{
    match token {
        Token::PlusEqual => Option::Some(BinaryOp::Add),
        Token::MinusEqual => Option::Some(BinaryOp::Sub),
        Token::AsteriskEqual => Option::Some(BinaryOp::Multiply),
        Token::SlashEqual => Option::Some(BinaryOp::Divide),
        Token::ModuloEqual => Option::Some(BinaryOp::Modulo),
        Token::OrEqual => Option::Some(BinaryOp::Or),
        Token::AndEqual => Option::Some(BinaryOp::And),
        Token::XorEqual => Option::Some(BinaryOp::Xor),
        Token::ShiftLeftEqual => Option::Some(BinaryOp::ShiftLeft),
        Token::ShiftRightEqual => Option::Some(BinaryOp::ShiftRight),
        _ => Option::None,
    }
}

/// The desugarings the expression parser owes to a leading identifier:
/// `x++` and `x--` parse to exactly `x = x + 1` and `x = x - 1`; `x = e`
/// parses to an assignment to `x`; `x op= e` parses to `x = x op e`.
pub open spec fn expr_desugar(ts: Seq<Token>, p: int, e: Expr) -> bool {
    0 <= p && p + 1 < ts.len() ==> match ts[p]@ {
        TokenV::Ident(x) => {
            &&& (ts[p + 1]@ == TokenV::Other(Token::PlusPlus) ==> is_op_assign(
                e,
                x,
                BinaryOp::Add,
                Expr::Const(1),
            ))
            &&& (ts[p + 1]@ == TokenV::Other(Token::MinusMinus) ==> is_op_assign(
                e,
                x,
                BinaryOp::Sub,
                Expr::Const(1),
            ))
            &&& (ts[p + 1]@ == TokenV::Other(Token::Equal) ==> {
                &&& e matches Expr::Assign(n, _)
                &&& n@ == x
            })
            &&& (spec_compound_op(ts[p + 1]) matches Some(op0) ==> {
                &&& e matches Expr::Assign(n, b)
                &&& n@ == x
                &&& *b matches Expr::BinOp(o, l, _)
                &&& o == op0
                &&& *l matches Expr::Var(vn)
                &&& vn@ == x
            })
        },
        _ => true,
    }
}

/// Parses one expression: assignments (plain, compound, increment and
/// decrement desugared) or a conditional expression. On success the
/// desugared shapes announced by the two leading tokens are kept.
pub fn parse_expr(tokens: &Vec<Token>, pos: &mut usize) -> (r: Result<Expr, ParseError>)
    requires
        *old(pos) <= tokens@.len(),
    ensures
        parse_post(tokens@, *old(pos), *final(pos), r is Ok),
        r matches Ok(e) ==> expr_desugar(tokens@, *old(pos) as int, e),
    decreases tokens@.len() - *pos, 12int,
{
    if *pos < tokens.len() {
        match &tokens[*pos] {
            Token::Identifier(name) => {
                let name = name.clone();
                if *pos + 1 < tokens.len() {
                    let follow_assign = token_eq(&tokens[*pos + 1], &Token::Equal);
                    let follow_inc = token_eq(&tokens[*pos + 1], &Token::PlusPlus);
                    let follow_dec = token_eq(&tokens[*pos + 1], &Token::MinusMinus);
                    if follow_assign {
                        *pos = *pos + 2;
                        let rhs = match parse_expr(tokens, pos) {
                            Ok(e) => e,
                            Err(er) => {
                                return Err(er);
                            },
                        };
                        return Ok(Expr::Assign(name, Box::new(rhs)));
                    }
                    if follow_inc {
                        *pos = *pos + 2;
                        return Ok(assign_bin_op(BinaryOp::Add, &name, Expr::Const(1)));
                    }
                    if follow_dec {
                        *pos = *pos + 2;
                        return Ok(assign_bin_op(BinaryOp::Sub, &name, Expr::Const(1)));
                    }
                    match token_to_binop(&tokens[*pos + 1]) {
                        Option::Some(bin_op) => {
                            *pos = *pos + 2;
                            let rhs = match parse_expr(tokens, pos) {
                                Ok(e) => e,
                                Err(er) => {
                                    return Err(er);
                                },
                            };
                            return Ok(assign_bin_op(bin_op, &name, rhs));
                        },
                        Option::None => (),
                    }
                }
            },
            _ => (),
        }
    }
    parse_conditional_expr(tokens, pos)
}

fn parse_declaration(tokens: &Vec<Token>, pos: &mut usize) -> (r: Result<Declaration, ParseError>)
    requires
        *old(pos) <= tokens@.len(),
    ensures
        parse_post(tokens@, *old(pos), *final(pos), r is Ok),
    decreases tokens@.len() - *pos, 13int,
{
    let name = match expect_ident(tokens, pos) {
        Ok(n) => n,
        Err(er) => {
            return Err(er);
        },
    };
    if peek_is(tokens, *pos, &Token::Equal) {
        *pos = *pos + 1;
        let e = match parse_expr(tokens, pos) {
            Ok(e) => e,
            Err(er) => {
                return Err(er);
            },
        };
        Ok(Declaration::Declare(name, Option::Some(e)))
    } else {
        Ok(Declaration::Declare(name, Option::None))
    }
}

fn parse_for_declaration(tokens: &Vec<Token>, pos: &mut usize) -> (r: Result<
    Declaration,
    ParseError,
>)
    requires
        *old(pos) <= tokens@.len(),
    ensures
        parse_post(tokens@, *old(pos), *final(pos), r is Ok),
    decreases tokens@.len() - *pos, 14int,
{
    let decl = match parse_declaration(tokens, pos) {
        Ok(d) => d,
        Err(er) => {
            return Err(er);
        },
    };
    if *pos >= tokens.len() {
        return Err(ParseError::UnexpectedEnd);
    }
    if token_eq(&tokens[*pos], &Token::Semicolon) {
        *pos = *pos + 1;
        Ok(decl)
    } else if token_eq(&tokens[*pos], &Token::Comma) {
        Err(ParseError::MultipleForInitDeclarations)
    } else {
        Err(ParseError::UnexpectedToken)
    }
}

fn parse_declaration_list(tokens: &Vec<Token>, pos: &mut usize) -> (r: Result<
    Vec<BlockItem>,
    ParseError,
>)
    requires
        *old(pos) <= tokens@.len(),
    ensures
        parse_post(tokens@, *old(pos), *final(pos), r is Ok),
        r matches Ok(v) ==> v@.len() >= 1 && (forall|k: int|
            0 <= k < v@.len() ==> v@[k] is Decl),
    decreases tokens@.len() - *pos, 14int,
{
    let mut decls: Vec<BlockItem> = Vec::new();
    let first = match parse_declaration(tokens, pos) {
        Ok(d) => d,
        Err(er) => {
            return Err(er);
        },
    };
    decls.push(BlockItem::Decl(first));
    while peek_is(tokens, *pos, &Token::Comma)
        invariant
            *old(pos) < *pos <= tokens@.len(),
            decls@.len() >= 1,
            forall|k: int| 0 <= k < decls@.len() ==> decls@[k] is Decl,
        decreases tokens@.len() - *pos,
    {
        *pos = *pos + 1;
        let d = match parse_declaration(tokens, pos) {
            Ok(d) => d,
            Err(er) => {
                return Err(er);
            },
        };
        decls.push(BlockItem::Decl(d));
    }
    match expect(tokens, pos, &Token::Semicolon) {
        Ok(()) => Ok(decls),
        Err(er) => Err(er),
    }
}

fn parse_expr_in_parens(tokens: &Vec<Token>, pos: &mut usize) -> (r: Result<Expr, ParseError>)
    requires
        *old(pos) <= tokens@.len(),
    ensures
        parse_post(tokens@, *old(pos), *final(pos), r is Ok),
    decreases tokens@.len() - *pos, 13int,
{
    let e = match parse_expr(tokens, pos) {
        Ok(e) => e,
        Err(er) => {
            return Err(er);
        },
    };
    match expect(tokens, pos, &Token::RParen) {
        Ok(()) => Ok(e),
        Err(er) => Err(er),
    }
}

fn parse_for_cond(tokens: &Vec<Token>, pos: &mut usize) -> (r: Result<Expr, ParseError>)
    requires
        *old(pos) <= tokens@.len(),
    ensures
        parse_post(tokens@, *old(pos), *final(pos), r is Ok),
    decreases tokens@.len() - *pos, 13int,
{
    if peek_is(tokens, *pos, &Token::Semicolon) {
        *pos = *pos + 1;
        // An absent condition means the loop always runs.
        Ok(Expr::Const(1))
    } else {
        let e = match parse_expr(tokens, pos) {
            Ok(e) => e,
            Err(er) => {
                return Err(er);
            },
        };
        match expect(tokens, pos, &Token::Semicolon) {
            Ok(()) => Ok(e),
            Err(er) => Err(er),
        }
    }
}

/// The statement constructor each leading token announces.
pub open spec fn stmt_head_shape(t: TokenV, s: Statement) -> bool {
    match t {
        TokenV::Other(Token::KeywordReturn) => s is Return,
        TokenV::Other(Token::KeywordBingus) => s is Bingus,
        TokenV::Other(Token::KeywordIf) => s is If,
        TokenV::Other(Token::KeywordFor) => s is For || s is ForDecl,
        TokenV::Other(Token::KeywordWhile) => s is While,
        TokenV::Other(Token::KeywordDo) => s is Do,
        TokenV::Other(Token::KeywordContinue) => s == Statement::Continue,
        TokenV::Other(Token::KeywordBreak) => s == Statement::Break,
        TokenV::Other(Token::LBrace) => s is Compound,
        TokenV::Other(Token::Semicolon) => s == Statement::Expr(Option::<Expr>::None),
        _ => true,
    }
}

/// Parses one statement. On success the constructor of the result matches
/// the leading token.
#[verifier::rlimit(100)]
pub fn parse_statement(tokens: &Vec<Token>, pos: &mut usize) -> (r: Result<Statement, ParseError>)
    requires
        *old(pos) <= tokens@.len(),
    ensures
        parse_post(tokens@, *old(pos), *final(pos), r is Ok),
        r matches Ok(s) ==> stmt_head_shape(tokens@[*old(pos) as int]@, s),
    decreases tokens@.len() - *pos, 15int,
{
    if *pos >= tokens.len() {
        return Err(ParseError::UnexpectedEnd);
    }
    match &tokens[*pos] {
        Token::KeywordReturn => {
            *pos = *pos + 1;
            let e = match parse_expr(tokens, pos) {
                Ok(e) => e,
                Err(er) => {
                    return Err(er);
                },
            };
            match expect(tokens, pos, &Token::Semicolon) {
                Ok(()) => Ok(Statement::Return(e)),
                Err(er) => Err(er),
            }
        },
        Token::KeywordBingus => {
            *pos = *pos + 1;
            match expect(tokens, pos, &Token::LParen) {
                Ok(()) => (),
                Err(er) => {
                    return Err(er);
                },
            }
            let e = match parse_expr(tokens, pos) {
                Ok(e) => e,
                Err(er) => {
                    return Err(er);
                },
            };
            match expect(tokens, pos, &Token::RParen) {
                Ok(()) => (),
                Err(er) => {
                    return Err(er);
                },
            }
            match expect(tokens, pos, &Token::Semicolon) {
                Ok(()) => Ok(Statement::Bingus(e)),
                Err(er) => Err(er),
            }
        },
        Token::KeywordIf => {
            *pos = *pos + 1;
            match expect(tokens, pos, &Token::LParen) {
                Ok(()) => (),
                Err(er) => {
                    return Err(er);
                },
            }
            let condition = match parse_expr(tokens, pos) {
                Ok(e) => e,
                Err(er) => {
                    return Err(er);
                },
            };
            match expect(tokens, pos, &Token::RParen) {
                Ok(()) => (),
                Err(er) => {
                    return Err(er);
                },
            }
            let if_branch = match parse_statement(tokens, pos) {
                Ok(s) => Box::new(s),
                Err(er) => {
                    return Err(er);
                },
            };
            let else_branch = if peek_is(tokens, *pos, &Token::KeywordElse) {
                *pos = *pos + 1;
                match parse_statement(tokens, pos) {
                    Ok(s) => Option::Some(Box::new(s)),
                    Err(er) => {
                        return Err(er);
                    },
                }
            } else {
                Option::None
            };
            Ok(Statement::If { cond: condition, then: if_branch, els: else_branch })
        },
        Token::KeywordFor => {
            *pos = *pos + 1;
            match expect(tokens, pos, &Token::LParen) {
                Ok(()) => (),
                Err(er) => {
                    return Err(er);
                },
            }
            if peek_is(tokens, *pos, &Token::KeywordInt) {
                *pos = *pos + 1;
                // consumes the terminating semicolon
                let decl = match parse_for_declaration(tokens, pos) {
                    Ok(d) => d,
                    Err(er) => {
                        return Err(er);
                    },
                };
                let cond = match parse_for_cond(tokens, pos) {
                    Ok(e) => e,
                    Err(er) => {
                        return Err(er);
                    },
                };
                let post = if peek_is(tokens, *pos, &Token::RParen) {
                    Option::None
                } else {
                    match parse_expr(tokens, pos) {
                        Ok(e) => Option::Some(e),
                        Err(er) => {
                            return Err(er);
                        },
                    }
                };
                match expect(tokens, pos, &Token::RParen) {
                    Ok(()) => (),
                    Err(er) => {
                        return Err(er);
                    },
                }
                let body = match parse_statement(tokens, pos) {
                    Ok(s) => Box::new(s),
                    Err(er) => {
                        return Err(er);
                    },
                };
                Ok(Statement::ForDecl { decl, cond, post, body })
            } else {
                let init = if peek_is(tokens, *pos, &Token::Semicolon) {
                    *pos = *pos + 1;
                    Option::None
                } else {
                    let e = match parse_expr(tokens, pos) {
                        Ok(e) => e,
                        Err(er) => {
                            return Err(er);
                        },
                    };
                    match expect(tokens, pos, &Token::Semicolon) {
                        Ok(()) => (),
                        Err(er) => {
                            return Err(er);
                        },
                    }
                    Option::Some(e)
                };
                let cond = match parse_for_cond(tokens, pos) {
                    Ok(e) => e,
                    Err(er) => {
                        return Err(er);
                    },
                };
                let post = if peek_is(tokens, *pos, &Token::RParen) {
                    Option::None
                } else {
                    match parse_expr(tokens, pos) {
                        Ok(e) => Option::Some(e),
                        Err(er) => {
                            return Err(er);
                        },
                    }
                };
                match expect(tokens, pos, &Token::RParen) {
                    Ok(()) => (),
                    Err(er) => {
                        return Err(er);
                    },
                }
                let body = match parse_statement(tokens, pos) {
                    Ok(s) => Box::new(s),
                    Err(er) => {
                        return Err(er);
                    },
                };
                Ok(Statement::For { init, cond, post, body })
            }
        },
        Token::KeywordWhile => {
            *pos = *pos + 1;
            match expect(tokens, pos, &Token::LParen) {
                Ok(()) => (),
                Err(er) => {
                    return Err(er);
                },
            }
            let cond = if peek_is(tokens, *pos, &Token::RParen) {
                // An absent condition means the loop always runs.
                Expr::Const(1)
            } else {
                match parse_expr(tokens, pos) {
                    Ok(e) => e,
                    Err(er) => {
                        return Err(er);
                    },
                }
            };
            match expect(tokens, pos, &Token::RParen) {
                Ok(()) => (),
                Err(er) => {
                    return Err(er);
                },
            }
            let body = match parse_statement(tokens, pos) {
                Ok(s) => Box::new(s),
                Err(er) => {
                    return Err(er);
                },
            };
            Ok(Statement::While { cond, body })
        },
        Token::KeywordDo => {
            *pos = *pos + 1;
            let body = match parse_statement(tokens, pos) {
                Ok(s) => Box::new(s),
                Err(er) => {
                    return Err(er);
                },
            };
            match expect(tokens, pos, &Token::KeywordWhile) {
                Ok(()) => (),
                Err(er) => {
                    return Err(er);
                },
            }
            match expect(tokens, pos, &Token::LParen) {
                Ok(()) => (),
                Err(er) => {
                    return Err(er);
                },
            }
            let cond = match parse_expr_in_parens(tokens, pos) {
                Ok(e) => e,
                Err(er) => {
                    return Err(er);
                },
            };
            match expect(tokens, pos, &Token::Semicolon) {
                Ok(()) => Ok(Statement::Do { body, cond }),
                Err(er) => Err(er),
            }
        },
        Token::KeywordContinue => {
            *pos = *pos + 1;
            match expect(tokens, pos, &Token::Semicolon) {
                Ok(()) => Ok(Statement::Continue),
                Err(er) => Err(er),
            }
        },
        Token::KeywordBreak => {
            *pos = *pos + 1;
            match expect(tokens, pos, &Token::Semicolon) {
                Ok(()) => Ok(Statement::Break),
                Err(er) => Err(er),
            }
        },
        Token::LBrace => {
            *pos = *pos + 1;
            let mut block_items: Vec<BlockItem> = Vec::new();
            loop
                invariant
                    *old(pos) < *pos <= tokens@.len(),
                decreases tokens@.len() - *pos,
            {
                if peek_is(tokens, *pos, &Token::RBrace) {
                    break ;
                }
                let mut parsed = match parse_block_items(tokens, pos) {
                    Ok(p) => p,
                    Err(er) => {
                        return Err(er);
                    },
                };
                block_items.append(&mut parsed);
            }
            match expect(tokens, pos, &Token::RBrace) {
                Ok(()) => Ok(Statement::Compound(block_items)),
                Err(er) => Err(er),
            }
        },
        Token::RBrace => Err(ParseError::UnexpectedCloseBrace),
        Token::Semicolon => {
            *pos = *pos + 1;
            Ok(Statement::Expr(Option::None))
        },
        _ => {
            let e = match parse_expr(tokens, pos) {
                Ok(e) => e,
                Err(er) => {
                    return Err(er);
                },
            };
            match expect(tokens, pos, &Token::Semicolon) {
                Ok(()) => Ok(Statement::Expr(Option::Some(e))),
                Err(er) => Err(er),
            }
        },
    }
}

/// What the leading token of a run of block items determines: after `int`,
/// a nonempty comma-separated run of declarations in source order; any
/// other leading token yields exactly one statement item.
pub open spec fn block_items_shape(ts: Seq<Token>, p: int, v: Seq<BlockItem>) -> bool {
    if 0 <= p < ts.len() && ts[p]@ == TokenV::Other(Token::KeywordInt) {
        v.len() >= 1 && (forall|k: int| 0 <= k < v.len() ==> v[k] is Decl)
    } else {
        v.len() == 1 && v[0] is Stmt
    }
}

/// Parses the next run of block items: a declaration list after `int`, or
/// one statement.
pub fn parse_block_items(tokens: &Vec<Token>, pos: &mut usize) -> (r: Result<
    Vec<BlockItem>,
    ParseError,
>)
    requires
        *old(pos) <= tokens@.len(),
    ensures
        parse_post(tokens@, *old(pos), *final(pos), r is Ok),
        r matches Ok(v) ==> block_items_shape(tokens@, *old(pos) as int, v@),
    decreases tokens@.len() - *pos, 16int,
{
    if *pos < tokens.len() {
        let is_int = token_eq(&tokens[*pos], &Token::KeywordInt);
        if is_int {
            *pos = *pos + 1;
            return parse_declaration_list(tokens, pos);
        }
    }
    match parse_statement(tokens, pos) {
        Ok(s) => {
            let mut v: Vec<BlockItem> = Vec::new();
            v.push(BlockItem::Stmt(s));
            Ok(v)
        },
        Err(er) => Err(er),
    }
}

/// Parses a whole program: a sequence of global variable declarations and
/// function declarations or definitions, in source order. An empty token
/// list is the empty program; a nonempty one yields at least one top-level
/// item or an error.
pub fn parse(tokens: &Vec<Token>) -> (r: Result<Program, ParseError>)
    ensures
        tokens@.len() == 0 ==> r is Ok,
        r matches Ok(p) ==> (tokens@.len() == 0 ==> p.toplevel_items@.len() == 0) && (
        tokens@.len() > 0 ==> p.toplevel_items@.len() >= 1),
{
    let mut pos: usize = 0;
    let mut items: Vec<TopLevel> = Vec::new();

    loop
        invariant
            pos <= tokens@.len(),
            items@.len() == 0 ==> pos == 0,
            tokens@.len() == 0 ==> items@.len() == 0,
        ensures
            pos >= tokens@.len(),
            items@.len() == 0 ==> pos == 0,
            tokens@.len() == 0 ==> items@.len() == 0,
        decreases tokens@.len() - pos,
    {
        if pos >= tokens.len() {
            break ;
        }
        match expect(tokens, &mut pos, &Token::KeywordInt) {
            Ok(()) => (),
            Err(er) => {
                return Err(er);
            },
        }
        let name = match expect_ident(tokens, &mut pos) {
            Ok(n) => n,
            Err(er) => {
                return Err(er);
            },
        };
        if pos >= tokens.len() {
            return Err(ParseError::BadTopLevel);
        }
        if token_eq(&tokens[pos], &Token::Semicolon) {
            // global variable declaration
            pos = pos + 1;
            items.push(TopLevel::GlobalVariable(Declaration::Declare(name, Option::None)));
        } else if token_eq(&tokens[pos], &Token::Equal) {
            // global variable declaration with definition
            pos = pos + 1;
            let e = match parse_expr(tokens, &mut pos) {
                Ok(e) => e,
                Err(er) => {
                    return Err(er);
                },
            };
            match expect(tokens, &mut pos, &Token::Semicolon) {
                Ok(()) => (),
                Err(er) => {
                    return Err(er);
                },
            }
            items.push(TopLevel::GlobalVariable(Declaration::Declare(name, Option::Some(e))));
        } else if token_eq(&tokens[pos], &Token::LParen) {
            pos = pos + 1;
            // parameter list: [ "int" <id> { "," "int" <id> } ]
            let mut params: Vec<String> = Vec::new();
            if !peek_is(tokens, pos, &Token::RParen) {
                match expect(tokens, &mut pos, &Token::KeywordInt) {
                    Ok(()) => (),
                    Err(er) => {
                        return Err(er);
                    },
                }
                let param = match expect_ident(tokens, &mut pos) {
                    Ok(p) => p,
                    Err(er) => {
                        return Err(er);
                    },
                };
                params.push(param);
                let ghost params_pos = pos;
                while peek_is(tokens, pos, &Token::Comma)
                    invariant
                        params_pos <= pos <= tokens@.len(),
                        tokens@.len() > 0,
                    decreases tokens@.len() - pos,
                {
                    pos = pos + 1;
                    match expect(tokens, &mut pos, &Token::KeywordInt) {
                        Ok(()) => (),
                        Err(er) => {
                            return Err(er);
                        },
                    }
                    let param = match expect_ident(tokens, &mut pos) {
                        Ok(p) => p,
                        Err(er) => {
                            return Err(er);
                        },
                    };
                    params.push(param);
                }
            }
            match expect(tokens, &mut pos, &Token::RParen) {
                Ok(()) => (),
                Err(er) => {
                    return Err(er);
                },
            }
            // `{` begins a definition; `;` ends a declaration
            if peek_is(tokens, pos, &Token::LBrace) {
                pos = pos + 1;
                let mut block_items: Vec<BlockItem> = Vec::new();
                let ghost body_pos = pos;
                loop
                    invariant
                        body_pos <= pos <= tokens@.len(),
                        tokens@.len() > 0,
                    decreases tokens@.len() - pos,
                {
                    if peek_is(tokens, pos, &Token::RBrace) {
                        break ;
                    }
                    let mut stmts = match parse_block_items(tokens, &mut pos) {
                        Ok(p) => p,
                        Err(er) => {
                            return Err(er);
                        },
                    };
                    block_items.append(&mut stmts);
                }
                match expect(tokens, &mut pos, &Token::RBrace) {
                    Ok(()) => (),
                    Err(er) => {
                        return Err(er);
                    },
                }
                items.push(
                    TopLevel::Function(
                        Function { name, params, block_items: Option::Some(block_items) },
                    ),
                );
            } else if peek_is(tokens, pos, &Token::Semicolon) {
                pos = pos + 1;
                items.push(
                    TopLevel::Function(Function { name, params, block_items: Option::None }),
                );
            } else {
                return Err(ParseError::BadTopLevel);
            }
        } else {
            return Err(ParseError::BadTopLevel);
        }
    }

    Ok(Program { toplevel_items: items })
}

} // verus!
