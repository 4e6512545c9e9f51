//! Semantic validation of function declarations, definitions and calls, and
//! of global-variable names, specified exactly by mirrors over an
//! insert-once name table.

use crate::ast::{BlockItem, Declaration, Expr, Function, Program, Statement, TopLevel};
use crate::text::str_eq;
use vstd::prelude::*;

verus! {

/// A validation failure.
#[derive(Debug, Clone, Copy, PartialEq, Eq, Structural)]
pub enum ValidationError {
    /// A function was defined more than once.
    FunctionRedefined,
    /// Declarations or definitions of one function disagree on arity.
    InconsistentArity,
    /// A call passes the wrong number of arguments.
    WrongArgumentCount,
    /// A call names a function that was never declared or defined.
    UndefinedFunction,
    /// A global variable was defined twice.
    DuplicateGlobalDefinition,
    /// One name is used both as a global variable and as a function.
    GlobalFunctionNameConflict,
}

/// What is known of a function name: declared or defined, with its arity.
#[derive(Debug, Clone, Copy, PartialEq, Eq, Structural)]
pub enum FuncKind {
    Decl(usize),
    Def(usize),
}

/// The arity a function kind records.
pub open spec fn arity_of(k: FuncKind) -> usize {
    match k {
        FuncKind::Decl(n) => n,
        FuncKind::Def(n) => n,
    }
}

/// The abstract value of the name table.
pub open spec fn fmap_view(m: Seq<(String, FuncKind)>) -> Seq<(Seq<char>, FuncKind)> {
    Seq::new(m.len(), |i: int| (m[i].0@, m[i].1))
}

/// First-match lookup from position `i` on: the table is insert-once, so
/// the first binding of a name is its only one.
pub open spec fn fmap_get(m: Seq<(Seq<char>, FuncKind)>, i: int, name: Seq<char>) -> Option<
    FuncKind,
>
    decreases m.len() - i,
{
    if i < 0 || i >= m.len() {
        Option::None
    } else if m[i].0 == name {
        Option::Some(m[i].1)
    } else {
        fmap_get(m, i + 1, name)
    }
}

/// Exact construction of the name table over the top-level items: a second
/// definition of a defined function and an arity disagreement are errors; a
/// name already seen is otherwise left as first recorded.
pub open spec fn sbuild_fmap(
    items: Vec<TopLevel>,
    i: int,
    m: Seq<(Seq<char>, FuncKind)>,
) -> Result<Seq<(Seq<char>, FuncKind)>, ValidationError>
    decreases items@.len() - i,
{
    if i < 0 || i >= items@.len() {
        Ok(m)
    } else {
        match items[i] {
            TopLevel::GlobalVariable(_) => sbuild_fmap(items, i + 1, m),
            TopLevel::Function(f) => {
                let arity = f.params@.len() as usize;
                match fmap_get(m, 0, f.name@) {
                    Option::Some(k) => {
                        if k is Def && f.block_items is Some {
                            Err(ValidationError::FunctionRedefined)
                        } else if arity_of(k) != arity {
                            Err(ValidationError::InconsistentArity)
                        } else {
                            sbuild_fmap(items, i + 1, m)
                        }
                    },
                    Option::None => {
                        let kind = if f.block_items is Some {
                            FuncKind::Def(arity)
                        } else {
                            FuncKind::Decl(arity)
                        };
                        sbuild_fmap(items, i + 1, m.push((f.name@, kind)))
                    },
                }
            },
        }
    }
}

/// Exact call validation of one expression against the name table.
pub open spec fn scheck_expr(e: Expr, m: Seq<(Seq<char>, FuncKind)>) -> Result<
    (),
    ValidationError,
>
    decreases e, 2int, 0int,
{
    match e {
        Expr::FunCall { name, parameters } => match fmap_get(m, 0, name@) {
            Option::None => Err(ValidationError::UndefinedFunction),
            Option::Some(k) => if parameters@.len() != arity_of(k) {
                Err(ValidationError::WrongArgumentCount)
            } else {
                scheck_exprs(parameters, 0, m)
            },
        },
        Expr::Assign(_, rhs) => scheck_expr(*rhs, m),
        Expr::UnOp(_, inner) => scheck_expr(*inner, m),
        Expr::BinOp(_, lhs, rhs) => match scheck_expr(*lhs, m) {
            Ok(()) => scheck_expr(*rhs, m),
            Err(er) => Err(er),
        },
        Expr::Conditional { cond, then, els } => match scheck_expr(*cond, m) {
            Ok(()) => match scheck_expr(*then, m) {
                Ok(()) => scheck_expr(*els, m),
                Err(er) => Err(er),
            },
            Err(er) => Err(er),
        },
        _ => Ok(()),
    }
}

/// Exact call validation of an argument list from position `i` on.
pub open spec fn scheck_exprs(args: Vec<Expr>, i: int, m: Seq<(Seq<char>, FuncKind)>) -> Result<
    (),
    ValidationError,
>
    decreases args, 1int, args@.len() - i,
{
    if i < 0 || i >= args@.len() {
        Ok(())
    } else {
        match scheck_expr(args[i], m) {
            Ok(()) => scheck_exprs(args, i + 1, m),
            Err(er) => Err(er),
        }
    }
}

/// Exact call validation of one statement: every expression it holds is
/// walked, the debug-print operand and a for loop's declared initializer
/// included.
pub open spec fn scheck_stmt(s: Statement, m: Seq<(Seq<char>, FuncKind)>) -> Result<
    (),
    ValidationError,
>
    decreases s, 3int, 0int,
{
    match s {
        Statement::Expr(Option::Some(e)) => scheck_expr(e, m),
        Statement::Expr(Option::None) => Ok(()),
        Statement::Return(e) => scheck_expr(e, m),
        Statement::Bingus(e) => scheck_expr(e, m),
        Statement::If { cond, then, els } => match scheck_expr(cond, m) {
            Ok(()) => match scheck_stmt(*then, m) {
                Ok(()) => match els {
                    Option::Some(e) => scheck_stmt(*e, m),
                    Option::None => Ok(()),
                },
                Err(er) => Err(er),
            },
            Err(er) => Err(er),
        },
        Statement::While { cond, body } => match scheck_expr(cond, m) {
            Ok(()) => scheck_stmt(*body, m),
            Err(er) => Err(er),
        },
        Statement::Do { body, cond } => match scheck_expr(cond, m) {
            Ok(()) => scheck_stmt(*body, m),
            Err(er) => Err(er),
        },
        Statement::For { init, cond, post, body } => {
            let r0 = match init {
                Option::Some(e) => scheck_expr(e, m),
                Option::None => Ok(()),
            };
            match r0 {
                Ok(()) => match scheck_expr(cond, m) {
                    Ok(()) => {
                        let r2 = match post {
                            Option::Some(e) => scheck_expr(e, m),
                            Option::None => Ok(()),
                        };
                        match r2 {
                            Ok(()) => scheck_stmt(*body, m),
                            Err(er) => Err(er),
                        }
                    },
                    Err(er) => Err(er),
                },
                Err(er) => Err(er),
            }
        },
        Statement::ForDecl { decl: Declaration::Declare(_, dinit), cond, post, body } => {
            let r0 = match dinit {
                Option::Some(e) => scheck_expr(e, m),
                Option::None => Ok(()),
            };
            match r0 {
                Ok(()) => match scheck_expr(cond, m) {
                    Ok(()) => {
                        let r2 = match post {
                            Option::Some(e) => scheck_expr(e, m),
                            Option::None => Ok(()),
                        };
                        match r2 {
                            Ok(()) => scheck_stmt(*body, m),
                            Err(er) => Err(er),
                        }
                    },
                    Err(er) => Err(er),
                },
                Err(er) => Err(er),
            }
        },
        Statement::Compound(items) => scheck_items(items, 0, m),
        _ => Ok(()),
    }
}

/// Exact call validation of a block's items from position `i` on:
/// statements and declaration initializers alike.
pub open spec fn scheck_items(
    items: Vec<BlockItem>,
    i: int,
    m: Seq<(Seq<char>, FuncKind)>,
) -> Result<(), ValidationError>
    decreases items, 4int, items@.len() - i,
{
    if i < 0 || i >= items@.len() {
        Ok(())
    } else {
        let r0 = match items[i] {
            BlockItem::Stmt(s) => scheck_stmt(s, m),
            BlockItem::Decl(Declaration::Declare(_, Option::Some(e))) => scheck_expr(e, m),
            BlockItem::Decl(Declaration::Declare(_, Option::None)) => Ok(()),
        };
        match r0 {
            Ok(()) => scheck_items(items, i + 1, m),
            Err(er) => Err(er),
        }
    }
}

/// Exact second pass: validates the body of each function definition.
pub open spec fn scheck_toplevel(
    items: Vec<TopLevel>,
    i: int,
    m: Seq<(Seq<char>, FuncKind)>,
) -> Result<(), ValidationError>
    decreases items@.len() - i,
{
    if i < 0 || i >= items@.len() {
        Ok(())
    } else {
        let r0 = match items[i] {
            TopLevel::Function(f) => match f.block_items {
                Option::Some(body) => scheck_items(body, 0, m),
                Option::None => Ok(()),
            },
            TopLevel::GlobalVariable(_) => Ok(()),
        };
        match r0 {
            Ok(()) => scheck_toplevel(items, i + 1, m),
            Err(er) => Err(er),
        }
    }
}

/// Exact whole-program call validation: the name table is built over every
/// top-level item, then every definition's body is checked against it.
pub open spec fn svalidate(p: Program) -> Result<(), ValidationError> {
    match sbuild_fmap(p.toplevel_items, 0, Seq::empty()) {
        Ok(m) => scheck_toplevel(p.toplevel_items, 0, m),
        Err(er) => Err(er),
    }
}

fn fmap_get_exec(m: &Vec<(String, FuncKind)>, name: &str) -> (r: Option<FuncKind>)
    ensures
        r == fmap_get(fmap_view(m@), 0, name@),
{
    let ghost mv = fmap_view(m@);
    let mut i: usize = 0;
    while i < m.len()
        invariant
            i <= m@.len(),
            mv == fmap_view(m@),
            fmap_get(mv, 0, name@) == fmap_get(mv, i as int, name@),
        decreases m@.len() - i,
    {
        if str_eq(m[i].0.as_str(), name) {
            return Option::Some(m[i].1);
        }
        i += 1;
    }
    Option::None
}

fn check_expr(e: &Expr, m: &Vec<(String, FuncKind)>) -> (r: Result<(), ValidationError>)
    ensures
        r == scheck_expr(*e, fmap_view(m@)),
    decreases *e, 2int, 0int,
{
    let ghost mv = fmap_view(m@);
    match e {
        Expr::FunCall { name, parameters } => {
            match fmap_get_exec(m, name.as_str()) {
                Option::None => Err(ValidationError::UndefinedFunction),
                Option::Some(k) => {
                    let arity = match k {
                        FuncKind::Decl(n) => n,
                        FuncKind::Def(n) => n,
                    };
                    if parameters.len() != arity {
                        Err(ValidationError::WrongArgumentCount)
                    } else {
                        check_exprs(parameters, m)
                    }
                },
            }
        },
        Expr::Assign(_, rhs) => check_expr(rhs, m),
        Expr::UnOp(_, inner) => check_expr(inner, m),
        Expr::BinOp(_, lhs, rhs) => {
            match check_expr(lhs, m) {
                Ok(()) => check_expr(rhs, m),
                Err(er) => Err(er),
            }
        },
        Expr::Conditional { cond, then, els } => {
            match check_expr(cond, m) {
                Ok(()) => match check_expr(then, m) {
                    Ok(()) => check_expr(els, m),
                    Err(er) => Err(er),
                },
                Err(er) => Err(er),
            }
        },
        _ => Ok(()),
    }
}

fn check_exprs(args: &Vec<Expr>, m: &Vec<(String, FuncKind)>) -> (r: Result<(), ValidationError>)
    ensures
        r == scheck_exprs(*args, 0, fmap_view(m@)),
    decreases *args, 1int, 0int,
{
    let ghost mv = fmap_view(m@);
    let mut i: usize = 0;
    while i < args.len()
        invariant
            i <= args@.len(),
            mv == fmap_view(m@),
            scheck_exprs(*args, 0, mv) == scheck_exprs(*args, i as int, mv),
        decreases args@.len() - i,
    {
        match check_expr(&args[i], m) {
            Ok(()) => (),
            Err(er) => {
                return Err(er);
            },
        }
        i += 1;
    }
    Ok(())
}

fn check_stmt(s: &Statement, m: &Vec<(String, FuncKind)>) -> (r: Result<(), ValidationError>)
    ensures
        r == scheck_stmt(*s, fmap_view(m@)),
    decreases *s, 3int, 0int,
{
    match s {
        Statement::Expr(Option::Some(e)) => check_expr(e, m),
        Statement::Expr(Option::None) => Ok(()),
        Statement::Return(e) => check_expr(e, m),
        Statement::Bingus(e) => check_expr(e, m),
        Statement::If { cond, then, els } => {
            match check_expr(cond, m) {
                Ok(()) => match check_stmt(then, m) {
                    Ok(()) => match els {
                        Option::Some(e) => check_stmt(e, m),
                        Option::None => Ok(()),
                    },
                    Err(er) => Err(er),
                },
                Err(er) => Err(er),
            }
        },
        Statement::While { cond, body } => {
            match check_expr(cond, m) {
                Ok(()) => check_stmt(body, m),
                Err(er) => Err(er),
            }
        },
        Statement::Do { body, cond } => {
            match check_expr(cond, m) {
                Ok(()) => check_stmt(body, m),
                Err(er) => Err(er),
            }
        },
        Statement::For { init, cond, post, body } => {
            let r0 = match init {
                Option::Some(e) => check_expr(e, m),
                Option::None => Ok(()),
            };
            match r0 {
                Ok(()) => match check_expr(cond, m) {
                    Ok(()) => {
                        let r2 = match post {
                            Option::Some(e) => check_expr(e, m),
                            Option::None => Ok(()),
                        };
                        match r2 {
                            Ok(()) => check_stmt(body, m),
                            Err(er) => Err(er),
                        }
                    },
                    Err(er) => Err(er),
                },
                Err(er) => Err(er),
            }
        },
        Statement::ForDecl { decl: Declaration::Declare(_, dinit), cond, post, body } => {
            let r0 = match dinit {
                Option::Some(e) => check_expr(e, m),
                Option::None => Ok(()),
            };
            match r0 {
                Ok(()) => match check_expr(cond, m) {
                    Ok(()) => {
                        let r2 = match post {
                            Option::Some(e) => check_expr(e, m),
                            Option::None => Ok(()),
                        };
                        match r2 {
                            Ok(()) => check_stmt(body, m),
                            Err(er) => Err(er),
                        }
                    },
                    Err(er) => Err(er),
                },
                Err(er) => Err(er),
            }
        },
        Statement::Compound(items) => check_items(items, m),
        _ => Ok(()),
    }
}

fn check_items(items: &Vec<BlockItem>, m: &Vec<(String, FuncKind)>) -> (r: Result<
    (),
    ValidationError,
>)
    ensures
        r == scheck_items(*items, 0, fmap_view(m@)),
    decreases *items, 4int, 0int,
{
    let ghost mv = fmap_view(m@);
    let mut i: usize = 0;
    while i < items.len()
        invariant
            i <= items@.len(),
            mv == fmap_view(m@),
            scheck_items(*items, 0, mv) == scheck_items(*items, i as int, mv),
        decreases items@.len() - i,
    {
        let r0 = match &items[i] {
            BlockItem::Stmt(s) => check_stmt(s, m),
            BlockItem::Decl(Declaration::Declare(_, Option::Some(e))) => check_expr(e, m),
            BlockItem::Decl(Declaration::Declare(_, Option::None)) => Ok(()),
        };
        match r0 {
            Ok(()) => (),
            Err(er) => {
                return Err(er);
            },
        }
        i += 1;
    }
    Ok(())
}

/// Validates the semantic consistency of function declarations, definitions
/// and calls: no second definition, consistent arities across declarations,
/// and every call resolved with the declared number of arguments.
pub fn validate_functions_declarations(program: &Program) -> (r: Result<(), ValidationError>)
    ensures
        r == svalidate(*program),
{
    let items = &program.toplevel_items;
    let mut table: Vec<(String, FuncKind)> = Vec::new();
    proof {
        assert(fmap_view(table@) =~~= Seq::<(Seq<char>, FuncKind)>::empty());
    }
    let mut i: usize = 0;
    while i < items.len()
        invariant
            i <= items@.len(),
            *items == program.toplevel_items,
            sbuild_fmap(*items, 0, Seq::empty()) == sbuild_fmap(*items, i as int, fmap_view(
                table@,
            )),
        decreases items@.len() - i,
    {
        let ghost mv = fmap_view(table@);
        match &items[i] {
            TopLevel::Function(f) => {
                let arity = f.params.len();
                match fmap_get_exec(&table, f.name.as_str()) {
                    Option::Some(k) => {
                        let is_def = matches!(k, FuncKind::Def(_));
                        if is_def && f.block_items.is_some() {
                            proof {
                                assert(sbuild_fmap(*items, i as int, mv) == Result::<
                                    Seq<(Seq<char>, FuncKind)>,
                                    ValidationError,
                                >::Err(ValidationError::FunctionRedefined));
                            }
                            return Err(ValidationError::FunctionRedefined);
                        }
                        let ea = match k {
                            FuncKind::Decl(n) => n,
                            FuncKind::Def(n) => n,
                        };
                        if ea != arity {
                            return Err(ValidationError::InconsistentArity);
                        }
                    },
                    Option::None => {
                        let kind = if f.block_items.is_some() {
                            FuncKind::Def(arity)
                        } else {
                            FuncKind::Decl(arity)
                        };
                        table.push((f.name.clone(), kind));
                        proof {
                            assert(fmap_view(table@) =~~= mv.push((f.name@, kind)));
                        }
                    },
                }
            },
            TopLevel::GlobalVariable(_) => (),
        }
        i += 1;
    }
    proof {
        assert(sbuild_fmap(*items, items@.len() as int, fmap_view(table@)) == Ok::<
            Seq<(Seq<char>, FuncKind)>,
            ValidationError,
        >(fmap_view(table@)));
    }

    let mut i: usize = 0;
    while i < items.len()
        invariant
            i <= items@.len(),
            *items == program.toplevel_items,
            sbuild_fmap(*items, 0, Seq::empty()) == Ok::<
                Seq<(Seq<char>, FuncKind)>,
                ValidationError,
            >(fmap_view(table@)),
            scheck_toplevel(*items, 0, fmap_view(table@)) == scheck_toplevel(
                *items,
                i as int,
                fmap_view(table@),
            ),
        decreases items@.len() - i,
    {
        let r0 = match &items[i] {
            TopLevel::Function(f) => match &f.block_items {
                Option::Some(body) => check_items(body, &table),
                Option::None => Ok(()),
            },
            TopLevel::GlobalVariable(_) => Ok(()),
        };
        match r0 {
            Ok(()) => (),
            Err(er) => {
                return Err(er);
            },
        }
        i += 1;
    }
    Ok(())
}

/// Whether a name occurs in a list of names, by characters.
pub open spec fn name_in(names: Seq<Seq<char>>, n: Seq<char>) -> bool {
    exists|i: int| 0 <= i < names.len() && names[i] == n
}

/// The abstract value of the function-name table of the global scan: each
/// name with whether its first occurrence was a definition.
pub open spec fn bmap_view(m: Seq<(String, bool)>) -> Seq<(Seq<char>, bool)> {
    Seq::new(m.len(), |i: int| (m[i].0@, m[i].1))
}

/// First-match lookup from position `i` on: the table is insert-once, so
/// the first record of a name is its only one.
pub open spec fn bmap_get(m: Seq<(Seq<char>, bool)>, i: int, name: Seq<char>) -> Option<bool>
    decreases m.len() - i,
{
    if i < 0 || i >= m.len() {
        Option::None
    } else if m[i].0 == name {
        Option::Some(m[i].1)
    } else {
        bmap_get(m, i + 1, name)
    }
}

/// Exact scan of the top-level items, in order: a function whose name was
/// first seen as a definition and which is itself a definition is an error;
/// a global variable declared again after a declaration of it that carried
/// an initializer is an error; later items otherwise leave the records of a
/// name as first made.
pub open spec fn sglobals(
    items: Vec<TopLevel>,
    i: int,
    funcs: Seq<(Seq<char>, bool)>,
    seen_defined: Seq<Seq<char>>,
) -> Result<(), ValidationError>
    decreases items@.len() - i,
{
    if i < 0 || i >= items@.len() {
        Ok(())
    } else {
        match items[i] {
            TopLevel::Function(f) => {
                let has_def = f.block_items is Some;
                match bmap_get(funcs, 0, f.name@) {
                    Option::Some(first_def) => if first_def && has_def {
                        Err(ValidationError::FunctionRedefined)
                    } else {
                        sglobals(items, i + 1, funcs, seen_defined)
                    },
                    Option::None => sglobals(
                        items,
                        i + 1,
                        funcs.push((f.name@, has_def)),
                        seen_defined,
                    ),
                }
            },
            TopLevel::GlobalVariable(Declaration::Declare(name, init)) => {
                if name_in(seen_defined, name@) {
                    Err(ValidationError::DuplicateGlobalDefinition)
                } else if init is Some {
                    sglobals(items, i + 1, funcs, seen_defined.push(name@))
                } else {
                    sglobals(items, i + 1, funcs, seen_defined)
                }
            },
        }
    }
}

/// Whether any top-level item from position `i` on is a global variable
/// whose name is also a function's name.
pub open spec fn sconflict(items: Vec<TopLevel>, i: int) -> bool
    decreases items@.len() - i,
{
    if i < 0 || i >= items@.len() {
        false
    } else {
        (match items[i] {
            TopLevel::GlobalVariable(Declaration::Declare(name, _)) => fname_in(items, 0, name@),
            _ => false,
        }) || sconflict(items, i + 1)
    }
}

/// Whether a name is some function's name.
pub open spec fn fname_in(items: Vec<TopLevel>, i: int, n: Seq<char>) -> bool
    decreases items@.len() - i,
{
    if i < 0 || i >= items@.len() {
        false
    } else {
        (match items[i] {
            TopLevel::Function(f) => f.name@ == n,
            _ => false,
        }) || fname_in(items, i + 1, n)
    }
}

/// Exact global-name validation: no function defined twice, no global
/// defined twice, and no name used both as a global variable and as a
/// function.
pub open spec fn scheck_globals(p: Program) -> Result<(), ValidationError> {
    match sglobals(p.toplevel_items, 0, Seq::empty(), Seq::empty()) {
        Err(er) => Err(er),
        Ok(_) => if sconflict(p.toplevel_items, 0) {
            Err(ValidationError::GlobalFunctionNameConflict)
        } else {
            Ok(())
        },
    }
}

fn seq_name_in(names: &Vec<String>, n: &str) -> (r: bool)
    ensures
        r == name_in(crate::generator::stmts::names_of(names@), n@),
{
    let mut i: usize = 0;
    while i < names.len()
        invariant
            i <= names@.len(),
            forall|j: int|
                0 <= j < i ==> crate::generator::stmts::names_of(names@)[j] != n@,
        decreases names@.len() - i,
    {
        if str_eq(names[i].as_str(), n) {
            proof {
                assert(crate::generator::stmts::names_of(names@)[i as int] == n@);
            }
            return true;
        }
        i += 1;
    }
    proof {
        assert(!name_in(crate::generator::stmts::names_of(names@), n@));
    }
    false
}

fn fname_in_exec(items: &Vec<TopLevel>, n: &str) -> (r: bool)
    ensures
        r == fname_in(*items, 0, n@),
{
    let mut i: usize = 0;
    while i < items.len()
        invariant
            i <= items@.len(),
            fname_in(*items, 0, n@) == fname_in(*items, i as int, n@),
        decreases items@.len() - i,
    {
        match &items[i] {
            TopLevel::Function(f) => {
                if str_eq(f.name.as_str(), n) {
                    return true;
                }
            },
            _ => (),
        }
        i += 1;
    }
    false
}

fn bmap_get_exec(m: &Vec<(String, bool)>, name: &str) -> (r: Option<bool>)
    ensures
        r == bmap_get(bmap_view(m@), 0, name@),
{
    let ghost mv = bmap_view(m@);
    let mut i: usize = 0;
    while i < m.len()
        invariant
            i <= m@.len(),
            mv == bmap_view(m@),
            bmap_get(mv, 0, name@) == bmap_get(mv, i as int, name@),
        decreases m@.len() - i,
    {
        if str_eq(m[i].0.as_str(), name) {
            return Option::Some(m[i].1);
        }
        i += 1;
    }
    Option::None
}

/// Checks that no function is defined twice, that no global variable is
/// defined twice, and that no name serves both as a global variable and as
/// a function.
pub fn check_global_name_conflicts(program: &Program) -> (r: Result<(), ValidationError>)
    ensures
        r == scheck_globals(*program),
{
    let items = &program.toplevel_items;
    let mut funcs: Vec<(String, bool)> = Vec::new();
    let mut defined: Vec<String> = Vec::new();
    proof {
        assert(bmap_view(funcs@) =~~= Seq::<(Seq<char>, bool)>::empty());
        assert(crate::generator::stmts::names_of(defined@) =~~= Seq::<Seq<char>>::empty());
    }
    let mut i: usize = 0;
    while i < items.len()
        invariant
            i <= items@.len(),
            *items == program.toplevel_items,
            sglobals(*items, 0, Seq::empty(), Seq::empty()) == sglobals(*items, i as int,
                bmap_view(funcs@), crate::generator::stmts::names_of(defined@)),
        decreases items@.len() - i,
    {
        let ghost fv = bmap_view(funcs@);
        let ghost dv = crate::generator::stmts::names_of(defined@);
        match &items[i] {
            TopLevel::Function(f) => {
                let has_def = f.block_items.is_some();
                match bmap_get_exec(&funcs, f.name.as_str()) {
                    Option::Some(first_def) => {
                        if first_def && has_def {
                            return Err(ValidationError::FunctionRedefined);
                        }
                    },
                    Option::None => {
                        funcs.push((f.name.clone(), has_def));
                        proof {
                            assert(bmap_view(funcs@) =~~= fv.push((f.name@, has_def)));
                        }
                    },
                }
            },
            TopLevel::GlobalVariable(Declaration::Declare(name, init)) => {
                if seq_name_in(&defined, name.as_str()) {
                    return Err(ValidationError::DuplicateGlobalDefinition);
                }
                if init.is_some() {
                    defined.push(name.clone());
                    proof {
                        assert(crate::generator::stmts::names_of(defined@) =~~= dv.push(name@));
                    }
                }
            },
        }
        i += 1;
    }

    let mut i: usize = 0;
    while i < items.len()
        invariant
            i <= items@.len(),
            *items == program.toplevel_items,
            sglobals(*items, 0, Seq::empty(), Seq::empty()) is Ok,
            sconflict(*items, 0) == sconflict(*items, i as int),
        decreases items@.len() - i,
    {
        match &items[i] {
            TopLevel::GlobalVariable(Declaration::Declare(name, _)) => {
                if fname_in_exec(items, name.as_str()) {
                    return Err(ValidationError::GlobalFunctionNameConflict);
                }
            },
            _ => (),
        }
        i += 1;
    }
    Ok(())
}

} // verus!
