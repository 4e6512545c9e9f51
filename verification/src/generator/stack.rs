//! The stack-usage simulator: a dry run of the allocator over a function
//! body that computes the peak stack demand before any instruction is
//! emitted. It makes the same allocation decisions as the real generation
//! pass on the same input — declarations advance the allocator in order,
//! every statement leaves the allocator exactly as it found it (the real
//! pass restores a snapshot when a construct's scope ends), and the walk
//! covers nested blocks, both arms of every conditional, and the bodies of
//! all four loop forms — so the prologue can reserve a single statically
//! sized region that covers exactly what the body will use.

use crate::ast::{BlockItem, Declaration, Statement};
use crate::generator::allocator::{
    alloc_wf, spec_allocate, spec_total, AllocModel, Allocator,
};
use vstd::prelude::*;

verus! {

/// The larger of two values.
pub open spec fn max_i32(a: i32, b: i32) -> i32 {
    if a >= b {
        a
    } else {
        b
    }
}

/// Simulation of one block item: a declaration allocates one word, advancing
/// the allocator and updating the running maximum; a statement is walked
/// structurally and leaves the allocator as it found it.
pub open spec fn ssim_item(it: BlockItem, m: AllocModel, mx: i32) -> (AllocModel, i32)
    decreases it, 0int, 0int,
{
    match it {
        BlockItem::Decl(Declaration::Declare(name, _)) => {
            let m1 = spec_allocate(m, name@, 4).0;
            (m1, max_i32(mx, spec_total(m1)))
        },
        BlockItem::Stmt(s) => (m, ssim_stmt(s, m, mx)),
    }
}

/// Simulation of one statement: the running maximum it raises the given one
/// to. The allocator state is not returned because a statement restores it:
/// both arms of a conditional start from the same state, a loop body's
/// declarations live exactly for the loop, and a for loop's declaration
/// initializer is in scope for its body — just as the real pass allocates.
pub open spec fn ssim_stmt(s: Statement, m: AllocModel, mx: i32) -> i32
    decreases s, 1int, 0int,
{
    match s {
        Statement::If { cond: _, then, els } => {
            let mx1 = ssim_stmt(*then, m, mx);
            match els {
                Some(e) => ssim_stmt(*e, m, mx1),
                None => mx1,
            }
        },
        Statement::Compound(items) => ssim_block(items, m, mx),
        Statement::While { cond: _, body } => ssim_stmt(*body, m, mx),
        Statement::Do { body, cond: _ } => ssim_stmt(*body, m, mx),
        Statement::For { init: _, cond: _, post: _, body } => ssim_stmt(*body, m, mx),
        Statement::ForDecl { decl: Declaration::Declare(name, _), cond: _, post: _, body } => {
            let m1 = spec_allocate(m, name@, 4).0;
            ssim_stmt(*body, m1, max_i32(mx, spec_total(m1)))
        },
        _ => mx,
    }
}

/// Simulation of the items of a block from position `i` on: declarations
/// thread the allocator state through, statements only raise the maximum.
pub open spec fn ssim_items(items: Vec<BlockItem>, i: int, m: AllocModel, mx: i32) -> (
    AllocModel,
    i32,
)
    decreases items, 1int, items@.len() - i,
{
    if i < 0 || i >= items@.len() {
        (m, mx)
    } else {
        let r1 = ssim_item(items[i], m, mx);
        ssim_items(items, i + 1, r1.0, r1.1)
    }
}

/// Simulation of a whole block: its items in order; the allocator state is
/// restored at the end, as the real pass restores its snapshot.
pub open spec fn ssim_block(items: Vec<BlockItem>, m: AllocModel, mx: i32) -> i32
    decreases items, 2int, 0int,
{
    ssim_items(items, 0, m, mx).1
}

/// Simulation of binding a function's parameters from position `i` on: each
/// parameter is allocated like a local, before the body's walk, from the
/// same allocator the real pass seeds.
pub open spec fn ssim_params(params: Vec<String>, i: int, m: AllocModel, mx: i32) -> (
    AllocModel,
    i32,
)
    decreases params@.len() - i,
{
    if i < 0 || i >= params@.len() {
        (m, mx)
    } else {
        let m1 = spec_allocate(m, params[i]@, 4).0;
        ssim_params(params, i + 1, m1, max_i32(mx, spec_total(m1)))
    }
}

fn sim_item(item: &BlockItem, allocator: &mut Allocator, max: &mut i32)
    requires
        alloc_wf(old(allocator)@),
    ensures
        (final(allocator)@, *final(max)) == ssim_item(*item, old(allocator)@, *old(max)),
        alloc_wf(final(allocator)@),
    decreases *item, 0int, 0int,
{
    match item {
        BlockItem::Decl(Declaration::Declare(name, _)) => {
            let _ = allocator.allocate(name.clone(), 4);
            let t = allocator.total_stack_size();
            if t > *max {
                *max = t;
            }
        },
        BlockItem::Stmt(s) => simulate_stmt_stack(s, allocator, max),
    }
}

fn simulate_stmt_stack(stmt: &Statement, allocator: &mut Allocator, max: &mut i32)
    requires
        alloc_wf(old(allocator)@),
    ensures
        final(allocator)@ == old(allocator)@,
        *final(max) == ssim_stmt(*stmt, old(allocator)@, *old(max)),
    decreases *stmt, 1int, 0int,
{
    match stmt {
        Statement::If { cond: _, then, els } => {
            simulate_stmt_stack(then, allocator, max);
            match els {
                Some(e) => simulate_stmt_stack(e, allocator, max),
                None => (),
            }
        },
        Statement::Compound(items) => simulate_stack_usage(items, allocator, max),
        Statement::While { cond: _, body } => simulate_stmt_stack(body, allocator, max),
        Statement::Do { body, cond: _ } => simulate_stmt_stack(body, allocator, max),
        Statement::For { init: _, cond: _, post: _, body } => {
            simulate_stmt_stack(body, allocator, max)
        },
        Statement::ForDecl { decl: Declaration::Declare(name, _), cond: _, post: _, body } => {
            let saved = allocator.snapshot();
            let _ = allocator.allocate(name.clone(), 4);
            let t = allocator.total_stack_size();
            if t > *max {
                *max = t;
            }
            simulate_stmt_stack(body, allocator, max);
            *allocator = saved;
        },
        _ => (),
    }
}

/// Dry-runs the allocator over a block, updating `max` with the largest
/// total stack size observed after any declaration, including those inside
/// nested blocks, conditional arms and loop bodies; the allocator is left
/// as it was found. Run over a function's body with a throwaway allocator
/// seeded like the real pass (same register pool, parameters already bound),
/// this yields the peak stack demand of generation before any instruction
/// exists.
pub fn simulate_stack_usage(items: &Vec<BlockItem>, allocator: &mut Allocator, max: &mut i32)
    requires
        alloc_wf(old(allocator)@),
    ensures
        final(allocator)@ == old(allocator)@,
        *final(max) == ssim_block(*items, old(allocator)@, *old(max)),
    decreases *items, 2int, 0int,
{
    let ghost m0 = allocator@;
    let ghost mx0 = *max;
    let saved = allocator.snapshot();
    let mut i: usize = 0;
    while i < items.len()
        invariant
            i <= items@.len(),
            alloc_wf(allocator@),
            saved@ == m0,
            ssim_items(*items, 0, m0, mx0) == ssim_items(*items, i as int, allocator@, *max),
        decreases items@.len() - i,
    {
        sim_item(&items[i], allocator, max);
        i += 1;
    }
    *allocator = saved;
}

} // verus!
