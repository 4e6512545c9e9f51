//! Constant folding: an AST-to-AST rewrite that replaces every
//! compile-time-constant subexpression by its value and leaves everything
//! else structurally unchanged. The `*_folds_to` predicates state that
//! relation exactly.

use crate::ast::{BlockItem, Declaration, Expr, Function, Program, Statement, TopLevel};
use crate::optimizer::evaluate_expr_compile_time::{evaluate_compile_time_expr, seval};
use vstd::prelude::*;

verus! {

/// The folding relation on expressions: a constant-valued expression folds
/// to its value; any other node keeps its shape, with the children folded.
pub open spec fn folds_to(e: Expr, r: Expr) -> bool
    decreases e, 2int, 0int,
{
    if seval(e) is Ok {
        r == Expr::Const(seval(e)->Ok_0)
    } else {
        match e {
            Expr::Const(c) => r == Expr::Const(c),
            Expr::Var(n) => r matches Expr::Var(n2) && n2@ == n@,
            Expr::UnOp(op, inner) => r matches Expr::UnOp(op2, i2) && op2 == op && folds_to(
                *inner,
                *i2,
            ),
            Expr::BinOp(op, lhs, rhs) => r matches Expr::BinOp(op2, l2, r2) && op2 == op
                && folds_to(*lhs, *l2) && folds_to(*rhs, *r2),
            Expr::Assign(n, rhs) => r matches Expr::Assign(n2, r2) && n2@ == n@ && folds_to(
                *rhs,
                *r2,
            ),
            Expr::Conditional { cond, then, els } => r matches Expr::Conditional {
                cond: c2,
                then: t2,
                els: e2,
            } && folds_to(*cond, *c2) && folds_to(*then, *t2) && folds_to(*els, *e2),
            Expr::FunCall { name, parameters } => r matches Expr::FunCall {
                name: n2,
                parameters: p2,
            } && n2@ == name@ && exprs_fold_to(parameters, p2, 0),
        }
    }
}

/// Elementwise folding of expression lists from position `i` on.
pub open spec fn exprs_fold_to(a: Vec<Expr>, b: Vec<Expr>, i: int) -> bool
    decreases a, 1int, a@.len() - i,
{
    if i < 0 || i >= a@.len() {
        b@.len() == a@.len()
    } else {
        b@.len() == a@.len() && folds_to(a[i], b[i]) && exprs_fold_to(a, b, i + 1)
    }
}

/// Folding of optional expressions: present and absent match up.
pub open spec fn opt_folds_to(oe: Option<Expr>, or: Option<Expr>) -> bool
    decreases oe, 3int, 0int,
{
    match oe {
        Option::Some(a) => or matches Option::Some(b) && folds_to(a, b),
        Option::None => or is None,
    }
}

/// The folding relation on declarations.
pub open spec fn decl_folds_to(d: Declaration, r: Declaration) -> bool
    decreases d, 1int, 0int,
{
    match d {
        Declaration::Declare(n, oe) => r matches Declaration::Declare(n2, oe2) && n2@ == n@
            && opt_folds_to(oe, oe2),
    }
}

/// The folding relation on statements: shape preserved, children folded.
pub open spec fn stmt_folds_to(s: Statement, r: Statement) -> bool
    decreases s, 4int, 0int,
{
    match s {
        Statement::Return(e) => r matches Statement::Return(e2) && folds_to(e, e2),
        Statement::Expr(oe) => r matches Statement::Expr(oe2) && opt_folds_to(oe, oe2),
        Statement::Bingus(e) => r matches Statement::Bingus(e2) && folds_to(e, e2),
        Statement::If { cond, then, els } => r matches Statement::If {
            cond: c2,
            then: t2,
            els: e2,
        } && folds_to(cond, c2) && stmt_folds_to(*then, *t2) && (match els {
            Option::Some(x) => e2 matches Option::Some(y) && stmt_folds_to(*x, *y),
            Option::None => e2 is None,
        }),
        Statement::Compound(items) => r matches Statement::Compound(it2) && items_fold_to(
            items,
            it2,
            0,
        ),
        Statement::While { cond, body } => r matches Statement::While { cond: c2, body: b2 }
            && folds_to(cond, c2) && stmt_folds_to(*body, *b2),
        Statement::Do { body, cond } => r matches Statement::Do { body: b2, cond: c2 } && folds_to(
            cond,
            c2,
        ) && stmt_folds_to(*body, *b2),
        Statement::For { init, cond, post, body } => r matches Statement::For {
            init: i2,
            cond: c2,
            post: p2,
            body: b2,
        } && opt_folds_to(init, i2) && folds_to(cond, c2) && opt_folds_to(post, p2)
            && stmt_folds_to(*body, *b2),
        Statement::ForDecl { decl, cond, post, body } => r matches Statement::ForDecl {
            decl: d2,
            cond: c2,
            post: p2,
            body: b2,
        } && decl_folds_to(decl, d2) && folds_to(cond, c2) && opt_folds_to(post, p2)
            && stmt_folds_to(*body, *b2),
        Statement::Break => r == Statement::Break,
        Statement::Continue => r == Statement::Continue,
    }
}

/// The folding relation on block items.
pub open spec fn item_folds_to(it: BlockItem, r: BlockItem) -> bool
    decreases it, 5int, 0int,
{
    match it {
        BlockItem::Stmt(s) => r matches BlockItem::Stmt(s2) && stmt_folds_to(s, s2),
        BlockItem::Decl(d) => r matches BlockItem::Decl(d2) && decl_folds_to(d, d2),
    }
}

/// Elementwise folding of block-item lists from position `i` on.
pub open spec fn items_fold_to(a: Vec<BlockItem>, b: Vec<BlockItem>, i: int) -> bool
    decreases a, 6int, a@.len() - i,
{
    if i < 0 || i >= a@.len() {
        b@.len() == a@.len()
    } else {
        b@.len() == a@.len() && item_folds_to(a[i], b[i]) && items_fold_to(a, b, i + 1)
    }
}

/// The folding relation on functions: name and parameters kept, body folded.
pub open spec fn function_folds_to(f: Function, r: Function) -> bool {
    &&& r.name@ == f.name@
    &&& r.params@.len() == f.params@.len()
    &&& forall|j: int| 0 <= j < f.params@.len() ==> #[trigger] r.params@[j]@ == f.params@[j]@
    &&& match f.block_items {
        Option::Some(items) => r.block_items matches Option::Some(it2) && items_fold_to(
            items,
            it2,
            0,
        ),
        Option::None => r.block_items is None,
    }
}

/// Elementwise folding of top-level items from position `i` on.
pub open spec fn toplevels_fold_to(a: Vec<TopLevel>, b: Vec<TopLevel>, i: int) -> bool
    decreases a@.len() - i,
{
    if i < 0 || i >= a@.len() {
        b@.len() == a@.len()
    } else {
        b@.len() == a@.len() && (match a[i] {
            TopLevel::Function(f) => b[i] matches TopLevel::Function(f2) && function_folds_to(
                f,
                f2,
            ),
            TopLevel::GlobalVariable(d) => b[i] matches TopLevel::GlobalVariable(d2)
                && decl_folds_to(d, d2),
        }) && toplevels_fold_to(a, b, i + 1)
    }
}

/// The folding relation on whole programs.
pub open spec fn program_folds_to(p: Program, r: Program) -> bool {
    toplevels_fold_to(p.toplevel_items, r.toplevel_items, 0)
}

proof fn lemma_exprs_fold_to(a: Vec<Expr>, b: Vec<Expr>, i: int)
    requires
        b@.len() == a@.len(),
        forall|j: int| i <= j < a@.len() ==> #[trigger] folds_to(a[j], b[j]),
    ensures
        exprs_fold_to(a, b, i),
    decreases a@.len() - i,
{
    if 0 <= i < a@.len() {
        lemma_exprs_fold_to(a, b, i + 1);
        assert(folds_to(a[i], b[i]));
    }
}

proof fn lemma_items_fold_to(a: Vec<BlockItem>, b: Vec<BlockItem>, i: int)
    requires
        b@.len() == a@.len(),
        forall|j: int| i <= j < a@.len() ==> #[trigger] item_folds_to(a[j], b[j]),
    ensures
        items_fold_to(a, b, i),
    decreases a@.len() - i,
{
    if 0 <= i < a@.len() {
        lemma_items_fold_to(a, b, i + 1);
        assert(item_folds_to(a[i], b[i]));
    }
}

fn fold_expr(e: &Expr) -> (r: Expr)
    ensures
        folds_to(*e, r),
    decreases *e, 2int, 0int,
{
    match evaluate_compile_time_expr(e) {
        Ok(v) => {
            return Expr::Const(v);
        },
        Err(_) => (),
    }
    match e {
        Expr::Const(c) => Expr::Const(*c),
        Expr::Var(n) => Expr::Var(n.clone()),
        Expr::UnOp(op, inner) => Expr::UnOp(*op, Box::new(fold_expr(inner))),
        Expr::BinOp(op, lhs, rhs) => Expr::BinOp(
            *op,
            Box::new(fold_expr(lhs)),
            Box::new(fold_expr(rhs)),
        ),
        Expr::Assign(n, rhs) => Expr::Assign(n.clone(), Box::new(fold_expr(rhs))),
        Expr::Conditional { cond, then, els } => Expr::Conditional {
            cond: Box::new(fold_expr(cond)),
            then: Box::new(fold_expr(then)),
            els: Box::new(fold_expr(els)),
        },
        Expr::FunCall { name, parameters } => Expr::FunCall {
            name: name.clone(),
            parameters: fold_exprs(parameters),
        },
    }
}

fn fold_exprs(exprs: &Vec<Expr>) -> (r: Vec<Expr>)
    ensures
        exprs_fold_to(*exprs, r, 0),
    decreases *exprs, 1int, 0int,
{
    let mut ps: Vec<Expr> = Vec::new();
    let mut j: usize = 0;
    while j < exprs.len()
        invariant
            j <= exprs@.len(),
            ps@.len() == j,
            forall|k: int| 0 <= k < j ==> #[trigger] folds_to(exprs@[k], ps@[k]),
        decreases exprs@.len() - j,
    {
        ps.push(fold_expr(&exprs[j]));
        j += 1;
    }
    proof {
        lemma_exprs_fold_to(*exprs, ps, 0);
    }
    ps
}

fn fold_opt_expr(oe: &Option<Expr>) -> (r: Option<Expr>)
    ensures
        opt_folds_to(*oe, r),
    decreases *oe, 3int, 0int,
{
    match oe {
        Option::Some(e) => Option::Some(fold_expr(e)),
        Option::None => Option::None,
    }
}

fn fold_decl(d: &Declaration) -> (r: Declaration)
    ensures
        decl_folds_to(*d, r),
    decreases *d, 1int, 0int,
{
    match d {
        Declaration::Declare(n, oe) => Declaration::Declare(n.clone(), fold_opt_expr(oe)),
    }
}

fn fold_stmt(s: &Statement) -> (r: Statement)
    ensures
        stmt_folds_to(*s, r),
    decreases *s, 4int, 0int,
{
    match s {
        Statement::Return(e) => Statement::Return(fold_expr(e)),
        Statement::Expr(oe) => Statement::Expr(fold_opt_expr(oe)),
        Statement::Bingus(e) => Statement::Bingus(fold_expr(e)),
        Statement::If { cond, then, els } => Statement::If {
            cond: fold_expr(cond),
            then: Box::new(fold_stmt(then)),
            els: match els {
                Option::Some(x) => Option::Some(Box::new(fold_stmt(x))),
                Option::None => Option::None,
            },
        },
        Statement::Compound(items) => Statement::Compound(fold_items(items)),
        Statement::While { cond, body } => Statement::While {
            cond: fold_expr(cond),
            body: Box::new(fold_stmt(body)),
        },
        Statement::Do { body, cond } => Statement::Do {
            body: Box::new(fold_stmt(body)),
            cond: fold_expr(cond),
        },
        Statement::For { init, cond, post, body } => Statement::For {
            init: fold_opt_expr(init),
            cond: fold_expr(cond),
            post: fold_opt_expr(post),
            body: Box::new(fold_stmt(body)),
        },
        Statement::ForDecl { decl, cond, post, body } => Statement::ForDecl {
            decl: fold_decl(decl),
            cond: fold_expr(cond),
            post: fold_opt_expr(post),
            body: Box::new(fold_stmt(body)),
        },
        Statement::Break => Statement::Break,
        Statement::Continue => Statement::Continue,
    }
}

fn fold_block_item(item: &BlockItem) -> (r: BlockItem)
    ensures
        item_folds_to(*item, r),
    decreases *item, 5int, 0int,
{
    match item {
        BlockItem::Stmt(st) => BlockItem::Stmt(fold_stmt(st)),
        BlockItem::Decl(d) => BlockItem::Decl(fold_decl(d)),
    }
}

fn fold_items(items: &Vec<BlockItem>) -> (r: Vec<BlockItem>)
    ensures
        items_fold_to(*items, r, 0),
    decreases *items, 6int, 0int,
{
    let mut out: Vec<BlockItem> = Vec::new();
    let mut j: usize = 0;
    while j < items.len()
        invariant
            j <= items@.len(),
            out@.len() == j,
            forall|k: int| 0 <= k < j ==> #[trigger] item_folds_to(items@[k], out@[k]),
        decreases items@.len() - j,
    {
        out.push(fold_block_item(&items[j]));
        j += 1;
    }
    proof {
        lemma_items_fold_to(*items, out, 0);
    }
    out
}

fn fold_function(f: &Function) -> (r: Function)
    ensures
        function_folds_to(*f, r),
{
    let mut params: Vec<String> = Vec::new();
    let mut j: usize = 0;
    while j < f.params.len()
        invariant
            j <= f.params@.len(),
            params@.len() == j,
            forall|k: int| 0 <= k < j ==> #[trigger] params@[k]@ == f.params@[k]@,
        decreases f.params@.len() - j,
    {
        params.push(f.params[j].clone());
        j += 1;
    }
    let body = match &f.block_items {
        Option::Some(items) => Option::Some(fold_items(items)),
        Option::None => Option::None,
    };
    Function { name: f.name.clone(), params, block_items: body }
}

/// Folds every compile-time-constant subexpression of a program to its
/// value, leaving the program's structure otherwise unchanged.
pub fn constant_fold(program: &Program) -> (r: Program)
    ensures
        program_folds_to(*program, r),
{
    let mut items: Vec<TopLevel> = Vec::new();
    let mut j: usize = 0;
    while j < program.toplevel_items.len()
        invariant
            j <= program.toplevel_items@.len(),
            items@.len() == j,
            forall|k: int|
                0 <= k < j ==> (match #[trigger] program.toplevel_items@[k] {
                    TopLevel::Function(f) => items@[k] matches TopLevel::Function(f2)
                        && function_folds_to(f, f2),
                    TopLevel::GlobalVariable(d) => items@[k] matches TopLevel::GlobalVariable(d2)
                        && decl_folds_to(d, d2),
                }),
        decreases program.toplevel_items@.len() - j,
    {
        let folded = match &program.toplevel_items[j] {
            TopLevel::Function(f) => TopLevel::Function(fold_function(f)),
            TopLevel::GlobalVariable(d) => TopLevel::GlobalVariable(fold_decl(d)),
        };
        items.push(folded);
        j += 1;
    }
    proof {
        lemma_toplevels_fold_to(program.toplevel_items, items, 0);
    }
    Program { toplevel_items: items }
}

proof fn lemma_toplevels_fold_to(a: Vec<TopLevel>, b: Vec<TopLevel>, i: int)
    requires
        b@.len() == a@.len(),
        forall|k: int|
            0 <= k < a@.len() ==> (match #[trigger] a@[k] {
                TopLevel::Function(f) => b@[k] matches TopLevel::Function(f2)
                    && function_folds_to(f, f2),
                TopLevel::GlobalVariable(d) => b@[k] matches TopLevel::GlobalVariable(d2)
                    && decl_folds_to(d, d2),
            }),
    ensures
        toplevels_fold_to(a, b, i),
    decreases a@.len() - i,
{
    if 0 <= i < a@.len() {
        lemma_toplevels_fold_to(a, b, i + 1);
    } else if i < 0 {
        lemma_toplevels_fold_to(a, b, 0);
    }
}

} // verus!
