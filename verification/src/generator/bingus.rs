//! Whole-program scan for the debug-print intrinsic: its runtime helper is
//! prepended to the output only when at least one call site exists anywhere
//! in the program.

use crate::ast::{BlockItem, Program, Statement, TopLevel};
use vstd::prelude::*;

verus! {

/// Whether a statement contains the debug-print intrinsic.
pub open spec fn sbingus_stmt(s: Statement) -> bool
    decreases s, 1int, 0int,
{
    match s {
        Statement::Bingus(_) => true,
        Statement::If { cond: _, then, els } => sbingus_stmt(*then) || match els {
            Option::Some(e) => sbingus_stmt(*e),
            Option::None => false,
        },
        Statement::While { cond: _, body } => sbingus_stmt(*body),
        Statement::Do { body, cond: _ } => sbingus_stmt(*body),
        Statement::For { body, .. } => sbingus_stmt(*body),
        Statement::ForDecl { body, .. } => sbingus_stmt(*body),
        Statement::Compound(items) => sbingus_items(items, 0),
        _ => false,
    }
}

/// Whether a block item contains the debug-print intrinsic.
pub open spec fn sbingus_item(it: BlockItem) -> bool
    decreases it, 0int, 0int,
{
    match it {
        BlockItem::Stmt(s) => sbingus_stmt(s),
        BlockItem::Decl(_) => false,
    }
}

/// Whether any item from position `i` on contains the intrinsic.
pub open spec fn sbingus_items(items: Vec<BlockItem>, i: int) -> bool
    decreases items, 2int, items@.len() - i,
{
    if i < 0 || i >= items@.len() {
        false
    } else {
        sbingus_item(items[i]) || sbingus_items(items, i + 1)
    }
}

/// Whether a program contains the intrinsic in any function definition from
/// position `i` on.
pub open spec fn sbingus_toplevel(items: Vec<TopLevel>, i: int) -> bool
    decreases items@.len() - i,
{
    if i < 0 || i >= items@.len() {
        false
    } else {
        let here = match items[i] {
            TopLevel::Function(f) => match f.block_items {
                Option::Some(body) => sbingus_items(body, 0),
                Option::None => false,
            },
            TopLevel::GlobalVariable(_) => false,
        };
        here || sbingus_toplevel(items, i + 1)
    }
}

/// Whether a program contains the debug-print intrinsic anywhere.
pub open spec fn sbingus_program(p: Program) -> bool {
    sbingus_toplevel(p.toplevel_items, 0)
}

fn bingus_in_stmt(s: &Statement) -> (r: bool)
    ensures
        r == sbingus_stmt(*s),
    decreases *s, 1int, 0int,
{
    match s {
        Statement::Bingus(_) => true,
        Statement::If { cond: _, then, els } => {
            if bingus_in_stmt(then) {
                true
            } else {
                match els {
                    Option::Some(e) => bingus_in_stmt(e),
                    Option::None => false,
                }
            }
        },
        Statement::While { cond: _, body } => bingus_in_stmt(body),
        Statement::Do { body, cond: _ } => bingus_in_stmt(body),
        Statement::For { body, .. } => bingus_in_stmt(body),
        Statement::ForDecl { body, .. } => bingus_in_stmt(body),
        Statement::Compound(items) => bingus_in_items(items, 0),
        _ => false,
    }
}

/// Whether one block item contains the debug-print intrinsic.
pub fn is_bingus_used(block_item: &BlockItem) -> (r: bool)
    ensures
        r == sbingus_item(*block_item),
    decreases *block_item, 0int, 0int,
{
    match block_item {
        BlockItem::Stmt(s) => bingus_in_stmt(s),
        BlockItem::Decl(_) => false,
    }
}

fn bingus_in_items(items: &Vec<BlockItem>, i: usize) -> (r: bool)
    requires
        i <= items@.len(),
    ensures
        r == sbingus_items(*items, i as int),
    decreases *items, 2int, items@.len() - i,
{
    if i >= items.len() {
        false
    } else if is_bingus_used(&items[i]) {
        true
    } else {
        bingus_in_items(items, i + 1)
    }
}

/// Whether the debug-print intrinsic occurs anywhere in the program.
pub fn bingus_used_in_program(p: &Program) -> (r: bool)
    ensures
        r == sbingus_program(*p),
{
    let mut i: usize = 0;
    while i < p.toplevel_items.len()
        invariant
            i <= p.toplevel_items@.len(),
            sbingus_toplevel(p.toplevel_items, 0) == sbingus_toplevel(p.toplevel_items, i as int),
        decreases p.toplevel_items@.len() - i,
    {
        let here = match &p.toplevel_items[i] {
            TopLevel::Function(f) => match &f.block_items {
                Option::Some(body) => bingus_in_items(body, 0),
                Option::None => false,
            },
            TopLevel::GlobalVariable(_) => false,
        };
        if here {
            return true;
        }
        i += 1;
    }
    false
}

} // verus!
