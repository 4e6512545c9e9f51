//! Laws of the code generator, stated and proved against the lowering
//! mirrors: frame sizing from the parameters and the peak count of
//! simultaneously live locals, resolution of `break` and `continue` to the
//! innermost loop, the short-circuit shape of the logical operators, and
//! the argument placement of calls.

use crate::ast::{BinaryOp, BlockItem, Declaration, Expr, Statement};
use crate::generator::allocator::{alloc_wf, spec_allocate, spec_total, AllocModel};
use crate::generator::arm64::{sgen_args, sgen_call, sgen_expr, spec_arg_bytes, EOut, LoopCtx};
use crate::generator::func::{pool_model, sframe_peak, spec_round16};
use crate::generator::instr::{CondCode, InstrV, Op};
use crate::generator::label::{sat_inc, Lbl, LabelKind};
use crate::generator::stack::{max_i32, ssim_block, ssim_item, ssim_items, ssim_params, ssim_stmt};
use crate::generator::stmts::{sgen_stmt, sgen_while_s};
use vstd::prelude::*;

verus! {

/// The larger of two counts.
pub open spec fn max_nat(a: nat, b: nat) -> nat {
    if a >= b {
        a
    } else {
        b
    }
}

/// The largest number of simultaneously live declarations a statement can
/// add to those already live: the two arms of a conditional are
/// alternatives, a block's declarations accumulate, a loop body's live only
/// inside the loop, and a for loop's declared initializer is live
/// throughout its body.
pub open spec fn sdc_stmt(s: Statement) -> nat
    decreases s, 1int, 0int,
{
    match s {
        Statement::If { cond: _, then, els } => max_nat(sdc_stmt(*then), match els {
            Option::Some(e) => sdc_stmt(*e),
            Option::None => 0,
        }),
        Statement::Compound(items) => sdc_items(items, 0),
        Statement::While { cond: _, body } => sdc_stmt(*body),
        Statement::Do { body, cond: _ } => sdc_stmt(*body),
        Statement::For { init: _, cond: _, post: _, body } => sdc_stmt(*body),
        Statement::ForDecl { decl: _, cond: _, post: _, body } => 1 + sdc_stmt(*body),
        _ => 0,
    }
}

/// The largest number of simultaneously live declarations among the items
/// from position `i` on: a declaration stays live for the rest of its
/// block, a statement's declarations end with the statement.
pub open spec fn sdc_items(items: Vec<BlockItem>, i: int) -> nat
    decreases items, 2int, items@.len() - i,
{
    if i < 0 || i >= items@.len() {
        0
    } else {
        match items[i] {
            BlockItem::Decl(_) => 1 + sdc_items(items, i + 1),
            BlockItem::Stmt(s) => max_nat(sdc_stmt(s), sdc_items(items, i + 1)),
        }
    }
}

/// The declarations standing directly among the items from position `i` on
/// (not inside statements): exactly these advance a block's allocator state.
pub open spec fn sdd_items(items: Vec<BlockItem>, i: int) -> nat
    decreases items@.len() - i,
{
    if i < 0 || i >= items@.len() {
        0
    } else {
        match items[i] {
            BlockItem::Decl(_) => 1 + sdd_items(items, i + 1),
            BlockItem::Stmt(_) => sdd_items(items, i + 1),
        }
    }
}

/// The stack slots needed for `d` locals over a pool of `f` registers.
pub open spec fn spills(d: nat, f: nat) -> nat {
    if d <= f {
        0
    } else {
        (d - f) as nat
    }
}

/// The smaller of two counts.
pub open spec fn spec_min(a: nat, b: nat) -> nat {
    if a <= b {
        a
    } else {
        b
    }
}

/// The allocator state after `dd` declarations from state `m`: the pool
/// shrinks first, and each declaration past the pool takes four bytes.
pub open spec fn run_state(m: AllocModel, dd: nat, r: AllocModel) -> bool {
    &&& r.free.len() == m.free.len() - spec_min(dd, m.free.len() as nat)
    &&& r.off as int == m.off - 4 * spills(dd, m.free.len() as nat)
    &&& r.scopes.len() == m.scopes.len()
    &&& alloc_wf(r)
}

/// The running maximum after simulating a construct that can have `pk`
/// declarations simultaneously live from state `m`: unchanged when nothing
/// is declared, otherwise raised to the total at the deepest point, which
/// dominates every shallower one.
pub open spec fn sim_peak(m: AllocModel, mx: i32, pk: nat) -> i32 {
    if pk > 0 {
        max_i32(mx, (-(m.off as int) + 4 * spills(pk, m.free.len() as nat)) as i32)
    } else {
        mx
    }
}

proof fn lemma_spills_compose(d1: nat, d2: nat, f: nat)
    ensures
        spills(d1 + d2, f) == spills(d1, f) + spills(d2, (f - spec_min(d1, f)) as nat),
        spec_min(d1 + d2, f) == spec_min(d1, f) + spec_min(d2, (f - spec_min(d1, f)) as nat),
        spills(d1, f) <= spills(d1 + d2, f),
{
}

/// One allocation of the supported width from a well-formed state.
proof fn lemma_alloc_step(m: AllocModel, name: Seq<char>)
    requires
        alloc_wf(m),
        m.off - 4 > i32::MIN,
    ensures
        ({
            let m1 = spec_allocate(m, name, 4).0;
            &&& alloc_wf(m1)
            &&& run_state(m, 1, m1)
            &&& spec_total(m1) as int == -(m.off as int) + 4 * spills(1, m.free.len() as nat)
        }),
{
}

/// Sequencing two constructs from the same base state merges their peaks.
proof fn lemma_peak_seq(m: AllocModel, mx: i32, p1: nat, p2: nat)
    requires
        alloc_wf(m),
        m.off - 4 * p1 > i32::MIN,
        m.off - 4 * p2 > i32::MIN,
    ensures
        sim_peak(m, sim_peak(m, mx, p1), p2) == sim_peak(m, mx, max_nat(p1, p2)),
{
    if p1 > 0 && p2 > 0 {
        if p1 <= p2 {
            lemma_spills_compose(p1, (p2 - p1) as nat, m.free.len() as nat);
        } else {
            lemma_spills_compose(p2, (p1 - p2) as nat, m.free.len() as nat);
        }
    }
}

/// One declaration followed by a construct of peak `p2` on top of it is a
/// construct of peak `1 + p2` from the original state.
proof fn lemma_peak_step(m: AllocModel, mx: i32, p2: nat, name: Seq<char>)
    requires
        alloc_wf(m),
        m.off - 4 * (1 + p2) > i32::MIN,
    ensures
        ({
            let m1 = spec_allocate(m, name, 4).0;
            sim_peak(m1, max_i32(mx, spec_total(m1)), p2) == sim_peak(m, mx, (1 + p2) as nat)
        }),
{
    lemma_alloc_step(m, name);
    lemma_spills_compose(1, p2, m.free.len() as nat);
}

/// The simulation of one statement raises the running maximum exactly to
/// the total at its deepest chain of live declarations.
proof fn lemma_counts_stmt(s: Statement, m: AllocModel, mx: i32)
    requires
        alloc_wf(m),
        m.off - 4 * sdc_stmt(s) > i32::MIN,
    ensures
        ssim_stmt(s, m, mx) == sim_peak(m, mx, sdc_stmt(s)),
    decreases s, 1int, 0int,
{
    match s {
        Statement::If { cond: _, then, els } => {
            lemma_counts_stmt(*then, m, mx);
            match els {
                Option::Some(e) => {
                    lemma_counts_stmt(*e, m, ssim_stmt(*then, m, mx));
                    lemma_peak_seq(m, mx, sdc_stmt(*then), sdc_stmt(*e));
                    assert(ssim_stmt(s, m, mx) == ssim_stmt(*e, m, ssim_stmt(*then, m, mx)));
                    assert(sdc_stmt(s) == max_nat(sdc_stmt(*then), sdc_stmt(*e)));
                },
                Option::None => {
                    assert(ssim_stmt(s, m, mx) == ssim_stmt(*then, m, mx));
                    assert(sdc_stmt(s) == sdc_stmt(*then));
                },
            }
        },
        Statement::Compound(items) => {
            lemma_counts_items(items, 0, m, mx);
            assert(ssim_stmt(s, m, mx) == ssim_block(items, m, mx));
            assert(ssim_block(items, m, mx) == ssim_items(items, 0, m, mx).1) by {
                reveal_with_fuel(ssim_block, 2);
            }
            assert(sdc_stmt(s) == sdc_items(items, 0));
        },
        Statement::While { cond: _, body } => {
            lemma_counts_stmt(*body, m, mx);
            assert(ssim_stmt(s, m, mx) == ssim_stmt(*body, m, mx));
        },
        Statement::Do { body, cond: _ } => {
            lemma_counts_stmt(*body, m, mx);
            assert(ssim_stmt(s, m, mx) == ssim_stmt(*body, m, mx));
        },
        Statement::For { init: _, cond: _, post: _, body } => {
            lemma_counts_stmt(*body, m, mx);
            assert(ssim_stmt(s, m, mx) == ssim_stmt(*body, m, mx));
        },
        Statement::ForDecl { decl: Declaration::Declare(name, _), cond: _, post: _, body } => {
            let m1 = spec_allocate(m, name@, 4).0;
            lemma_alloc_step(m, name@);
            lemma_counts_stmt(*body, m1, max_i32(mx, spec_total(m1)));
            lemma_peak_step(m, mx, sdc_stmt(*body), name@);
            assert(ssim_stmt(s, m, mx) == ssim_stmt(*body, m1, max_i32(mx, spec_total(m1))));
            assert(sdc_stmt(s) == 1 + sdc_stmt(*body));
        },
        _ => {
            assert(ssim_stmt(s, m, mx) == mx);
            assert(sdc_stmt(s) == 0);
        },
    }
}

/// The simulation of a run of items: its direct declarations advance the
/// allocator, and the running maximum rises exactly to the total at the
/// deepest point of the run.
proof fn lemma_counts_items(items: Vec<BlockItem>, i: int, m: AllocModel, mx: i32)
    requires
        alloc_wf(m),
        m.off - 4 * sdc_items(items, i) > i32::MIN,
    ensures
        run_state(m, sdd_items(items, i), ssim_items(items, i, m, mx).0),
        ssim_items(items, i, m, mx).1 == sim_peak(m, mx, sdc_items(items, i)),
    decreases items, 2int, items@.len() - i,
{
    if 0 <= i < items@.len() {
        assert(ssim_items(items, i, m, mx) == ({
            let r1 = ssim_item(items[i], m, mx);
            ssim_items(items, i + 1, r1.0, r1.1)
        })) by {
            reveal_with_fuel(ssim_items, 2);
        }
        match items[i] {
            BlockItem::Decl(Declaration::Declare(name, _)) => {
                let m1 = spec_allocate(m, name@, 4).0;
                let mx1 = max_i32(mx, spec_total(m1));
                assert(sdc_items(items, i) == 1 + sdc_items(items, i + 1));
                lemma_alloc_step(m, name@);
                assert(m1.off - 4 * sdc_items(items, i + 1) > i32::MIN);
                lemma_counts_items(items, i + 1, m1, mx1);
                lemma_peak_step(m, mx, sdc_items(items, i + 1), name@);
                lemma_spills_compose(1, sdd_items(items, i + 1), m.free.len() as nat);
                assert(ssim_items(items, i, m, mx) == ssim_items(items, i + 1, m1, mx1));
                assert(ssim_items(items, i, m, mx).1 == sim_peak(m, mx, sdc_items(items, i)));
                assert(run_state(m, sdd_items(items, i), ssim_items(items, i, m, mx).0));
            },
            BlockItem::Stmt(s) => {
                let mx1 = ssim_stmt(s, m, mx);
                lemma_counts_stmt(s, m, mx);
                lemma_counts_items(items, i + 1, m, mx1);
                lemma_peak_seq(m, mx, sdc_stmt(s), sdc_items(items, i + 1));
                assert(ssim_items(items, i, m, mx) == ssim_items(items, i + 1, m, mx1));
                assert(ssim_items(items, i, m, mx).1 == sim_peak(m, mx, sdc_items(items, i)));
                assert(run_state(m, sdd_items(items, i), ssim_items(items, i, m, mx).0));
            },
        }
    }
}

/// The simulation of binding `params@.len() - i` parameters: each is one
/// declaration, threading the allocator like a run of direct declarations.
proof fn lemma_counts_params(params: Vec<String>, i: int, m: AllocModel, mx: i32)
    requires
        alloc_wf(m),
        0 <= i <= params@.len(),
        m.off - 4 * (params@.len() - i) > i32::MIN,
    ensures
        run_state(m, (params@.len() - i) as nat, ssim_params(params, i, m, mx).0),
        ssim_params(params, i, m, mx).1 == sim_peak(m, mx, (params@.len() - i) as nat),
    decreases params@.len() - i,
{
    if i < params@.len() {
        let m1 = spec_allocate(m, params[i]@, 4).0;
        lemma_alloc_step(m, params[i]@);
        lemma_counts_params(params, i + 1, m1, max_i32(mx, spec_total(m1)));
        lemma_peak_step(m, mx, (params@.len() - i - 1) as nat, params[i]@);
        lemma_spills_compose(1, (params@.len() - i - 1) as nat, m.free.len() as nat);
    }
}

/// With at most as many parameters plus simultaneously live locals as free
/// registers, a function reserves zero bytes of stack for them.
pub proof fn lemma_registers_suffice(params: Vec<String>, items: Vec<BlockItem>)
    requires
        params@.len() + sdc_items(items, 0) <= pool_model().free.len(),
    ensures
        sframe_peak(params, items) == 0,
        spec_round16(sframe_peak(params, items)) == 0,
{
    lemma_counts_params(params, 0, pool_model(), 0);
    let p = ssim_params(params, 0, pool_model(), 0);
    lemma_counts_items(items, 0, p.0, p.1);
    assert(spills(params@.len() as nat, pool_model().free.len() as nat) == 0);
    assert(spills(sdc_items(items, 0), p.0.free.len() as nat) == 0);
}

/// With more parameters plus simultaneously live locals than free
/// registers, the reserved stack demand is exactly the spilled words'
/// bytes, and the frame is that rounded up to the 16-byte alignment.
pub proof fn lemma_spill_bytes(params: Vec<String>, items: Vec<BlockItem>)
    requires
        params@.len() <= 8,
        params@.len() + sdc_items(items, 0) > pool_model().free.len(),
        4 * (params@.len() + sdc_items(items, 0)) < 0x8000_0000,
    ensures
        sframe_peak(params, items) == 4 * (params@.len() + sdc_items(items, 0)
            - pool_model().free.len()),
        spec_round16(sframe_peak(params, items)) == ((4 * (params@.len() + sdc_items(items, 0)
            - pool_model().free.len()) + 15) / 16) * 16,
{
    lemma_counts_params(params, 0, pool_model(), 0);
    let p = ssim_params(params, 0, pool_model(), 0);
    lemma_counts_items(items, 0, p.0, p.1);
    assert(spills(params@.len() as nat, pool_model().free.len() as nat) == 0);
}

/// On success the label counter never moves backwards.
pub proof fn lemma_expr_lc_mono(e: Expr, m: AllocModel, lc: usize)
    ensures
        sgen_expr(e, m, lc) is Ok ==> sgen_expr(e, m, lc)->Ok_0.lc >= lc,
    decreases e, 3int, 0int,
{
    match e {
        Expr::UnOp(_, inner) => {
            lemma_expr_lc_mono(*inner, m, lc);
            assert(e is UnOp);
            match sgen_expr(*inner, m, lc) {
                Ok(r1) => {
                    assert(r1.lc >= lc);
                    assert(sgen_expr(e, m, lc) is Ok);
                    assert(sgen_expr(e, m, lc)->Ok_0.lc == r1.lc);
                },
                Err(_) => {
                    assert(sgen_expr(e, m, lc) is Err);
                },
            }
        },
        Expr::Const(_) => {
            assert(sgen_expr(e, m, lc) is Ok && sgen_expr(e, m, lc)->Ok_0.lc == lc);
        },
        Expr::Var(_) => {
            assert(sgen_expr(e, m, lc) is Ok ==> sgen_expr(e, m, lc)->Ok_0.lc == lc);
        },
        Expr::BinOp(BinaryOp::LogicalOr, lhs, rhs) => {
            lemma_expr_lc_mono(*lhs, m, sat_inc(sat_inc(lc)));
            match sgen_expr(*lhs, m, sat_inc(sat_inc(lc))) {
                Ok(r1) => {
                    lemma_expr_lc_mono(*rhs, m, r1.lc);
                    assert(sat_inc(sat_inc(lc)) >= lc);
                    assert(sgen_expr(e, m, lc) is Ok ==> sgen_expr(e, m, lc)->Ok_0.lc >= lc);
                },
                Err(_) => {
                    assert(sgen_expr(e, m, lc) is Err);
                },
            }
        },
        Expr::BinOp(BinaryOp::LogicalAnd, lhs, rhs) => {
            lemma_expr_lc_mono(*lhs, m, sat_inc(sat_inc(lc)));
            match sgen_expr(*lhs, m, sat_inc(sat_inc(lc))) {
                Ok(r1) => {
                    lemma_expr_lc_mono(*rhs, m, r1.lc);
                    assert(sat_inc(sat_inc(lc)) >= lc);
                    assert(sgen_expr(e, m, lc) is Ok ==> sgen_expr(e, m, lc)->Ok_0.lc >= lc);
                },
                Err(_) => {
                    assert(sgen_expr(e, m, lc) is Err);
                },
            }
        },
        Expr::BinOp(op, lhs, rhs) => {
            lemma_expr_lc_mono(*lhs, m, lc);
            match sgen_expr(*lhs, m, lc) {
                Ok(r1) => {
                    lemma_expr_lc_mono(*rhs, m, r1.lc);
                    assert(sgen_expr(e, m, lc) is Ok ==> sgen_expr(e, m, lc)->Ok_0.lc >= lc);
                },
                Err(_) => {
                    assert(sgen_expr(e, m, lc) is Err);
                },
            }
        },
        Expr::Assign(_, rhs) => {
            lemma_expr_lc_mono(*rhs, m, lc);
            assert(sgen_expr(e, m, lc) is Ok ==> sgen_expr(e, m, lc)->Ok_0.lc >= lc);
        },
        Expr::Conditional { cond, then, els } => {
            lemma_expr_lc_mono(*cond, m, sat_inc(sat_inc(lc)));
            match sgen_expr(*cond, m, sat_inc(sat_inc(lc))) {
                Ok(r1) => {
                    lemma_expr_lc_mono(*then, m, r1.lc);
                    match sgen_expr(*then, m, r1.lc) {
                        Ok(r2) => {
                            lemma_expr_lc_mono(*els, m, r2.lc);
                            assert(sat_inc(sat_inc(lc)) >= lc);
                            assert(sgen_expr(e, m, lc) is Ok ==> sgen_expr(e, m, lc)->Ok_0.lc
                                >= lc);
                        },
                        Err(_) => {
                            assert(sgen_expr(e, m, lc) is Err);
                        },
                    }
                },
                Err(_) => {
                    assert(sgen_expr(e, m, lc) is Err);
                },
            }
        },
        Expr::FunCall { name, parameters } => {
            lemma_args_lc_mono(parameters, parameters@.len() as int, m, lc);
            assert(sgen_expr(e, m, lc) == sgen_call(name@, parameters, m, lc));
            assert(sgen_expr(e, m, lc) is Ok ==> sgen_expr(e, m, lc)->Ok_0.lc >= lc);
        },
    }
}

proof fn lemma_args_lc_mono(args: Vec<Expr>, j: int, m: AllocModel, lc: usize)
    ensures
        sgen_args(args, j, m, lc) is Ok ==> sgen_args(args, j, m, lc)->Ok_0.lc >= lc,
    decreases args, 2int, j,
{
    if 0 < j <= args@.len() {
        lemma_expr_lc_mono(args[j - 1], m, lc);
        match sgen_expr(args[j - 1], m, lc) {
            Ok(r1) => lemma_args_lc_mono(args, j - 1, m, r1.lc),
            Err(_) => (),
        }
    }
}

/// Inside a nested loop, `break` resolves to the innermost loop's own end
/// label, never the outer loop's: whatever context an outer `while` is
/// lowered in, its body's loop context carries the outer loop's fresh end
/// label; lowering an inner `while` replaces it with the inner loop's own,
/// strictly later label; and a `break` in the inner body branches to that
/// inner label, which differs from the outer one.
pub proof fn lemma_innermost_break(
    outer: Statement,
    inner: Statement,
    ctx: LoopCtx,
    ep: Lbl,
    m: AllocModel,
    lc: usize,
)
    requires
        outer matches Statement::While { cond: _, body: b } && *b == inner,
        inner matches Statement::While { cond: _, body: b2 } && *b2 == Statement::Break,
        lc + 6 <= usize::MAX,
        sgen_stmt(outer, ctx, ep, m, lc) is Ok,
    ensures
        ({
            let fin_outer = Lbl { kind: LabelKind::WhileEnd, num: sat_inc(sat_inc(sat_inc(lc))) };
            let c1 = outer->While_cond;
            let r1 = sgen_expr(c1, m, sat_inc(sat_inc(sat_inc(lc))));
            r1 matches Ok(o1) && {
                let ctx_outer_body = LoopCtx {
                    break_label: Option::Some(fin_outer),
                    continue_label: Option::Some(
                        Lbl { kind: LabelKind::WhileContinue, num: sat_inc(sat_inc(lc)) },
                    ),
                };
                let fin_inner = Lbl {
                    kind: LabelKind::WhileEnd,
                    num: sat_inc(sat_inc(sat_inc(o1.lc))),
                };
                let c2 = inner->While_cond;
                let r2 = sgen_expr(c2, m, sat_inc(sat_inc(sat_inc(o1.lc))));
                // The inner body's break branches to the inner loop's end
                // label, which is distinct from the outer loop's.
                r2 matches Ok(o2) && sgen_stmt(
                    Statement::Break,
                    LoopCtx {
                        break_label: Option::Some(fin_inner),
                        continue_label: Option::Some(
                            Lbl {
                                kind: LabelKind::WhileContinue,
                                num: sat_inc(sat_inc(o1.lc)),
                            },
                        ),
                    },
                    ep,
                    m,
                    o2.lc,
                ) == Ok::<EOut, crate::generator::arm64::CodegenError>(
                    EOut { ins: seq![InstrV::Op(Op::B(fin_inner))], lc: o2.lc },
                ) && fin_inner != fin_outer
            }
        }),
{
    let c1 = outer->While_cond;
    let lc3 = sat_inc(sat_inc(sat_inc(lc)));
    assert(sgen_stmt(outer, ctx, ep, m, lc) == sgen_while_s(outer, ctx, ep, m, lc));
    let r1 = sgen_expr(c1, m, lc3);
    assert(r1 is Ok);
    let o1 = r1->Ok_0;
    lemma_expr_lc_mono(c1, m, lc3);
    let fin_outer = Lbl { kind: LabelKind::WhileEnd, num: lc3 };
    let ctx_outer_body = LoopCtx {
        break_label: Option::Some(fin_outer),
        continue_label: Option::Some(
            Lbl { kind: LabelKind::WhileContinue, num: sat_inc(sat_inc(lc)) },
        ),
    };
    assert(sgen_stmt(inner, ctx_outer_body, ep, m, o1.lc) is Ok);
    assert(sgen_stmt(inner, ctx_outer_body, ep, m, o1.lc) == sgen_while_s(
        inner,
        ctx_outer_body,
        ep,
        m,
        o1.lc,
    ));
    let lc3i = sat_inc(sat_inc(sat_inc(o1.lc)));
    let c2 = inner->While_cond;
    let r2 = sgen_expr(c2, m, lc3i);
    assert(r2 is Ok);
    assert(o1.lc >= lc3);
    assert(sat_inc(sat_inc(sat_inc(o1.lc))) > lc3);
}

/// Inside a nested loop, `continue` resolves to the innermost loop's own
/// continue label, never the outer loop's: lowering an inner `while` gives
/// its body a loop context whose continue label is strictly later than the
/// outer loop's, and a `continue` in the inner body branches to it.
pub proof fn lemma_innermost_continue(
    outer: Statement,
    inner: Statement,
    ctx: LoopCtx,
    ep: Lbl,
    m: AllocModel,
    lc: usize,
)
    requires
        outer matches Statement::While { cond: _, body: b } && *b == inner,
        inner matches Statement::While { cond: _, body: b2 } && *b2 == Statement::Continue,
        lc + 6 <= usize::MAX,
        sgen_stmt(outer, ctx, ep, m, lc) is Ok,
    ensures
        ({
            let cont_outer = Lbl { kind: LabelKind::WhileContinue, num: sat_inc(sat_inc(lc)) };
            let c1 = outer->While_cond;
            let r1 = sgen_expr(c1, m, sat_inc(sat_inc(sat_inc(lc))));
            r1 matches Ok(o1) && {
                let cont_inner = Lbl {
                    kind: LabelKind::WhileContinue,
                    num: sat_inc(sat_inc(o1.lc)),
                };
                let c2 = inner->While_cond;
                let r2 = sgen_expr(c2, m, sat_inc(sat_inc(sat_inc(o1.lc))));
                // The inner body's continue branches to the inner loop's
                // continue label, which is distinct from the outer loop's.
                r2 matches Ok(o2) && sgen_stmt(
                    Statement::Continue,
                    LoopCtx {
                        break_label: Option::Some(
                            Lbl {
                                kind: LabelKind::WhileEnd,
                                num: sat_inc(sat_inc(sat_inc(o1.lc))),
                            },
                        ),
                        continue_label: Option::Some(cont_inner),
                    },
                    ep,
                    m,
                    o2.lc,
                ) == Ok::<EOut, crate::generator::arm64::CodegenError>(
                    EOut { ins: seq![InstrV::Op(Op::B(cont_inner))], lc: o2.lc },
                ) && cont_inner != cont_outer
            }
        }),
{
    let c1 = outer->While_cond;
    let lc3 = sat_inc(sat_inc(sat_inc(lc)));
    assert(sgen_stmt(outer, ctx, ep, m, lc) == sgen_while_s(outer, ctx, ep, m, lc));
    let r1 = sgen_expr(c1, m, lc3);
    assert(r1 is Ok);
    let o1 = r1->Ok_0;
    lemma_expr_lc_mono(c1, m, lc3);
    let ctx_outer_body = LoopCtx {
        break_label: Option::Some(Lbl { kind: LabelKind::WhileEnd, num: lc3 }),
        continue_label: Option::Some(
            Lbl { kind: LabelKind::WhileContinue, num: sat_inc(sat_inc(lc)) },
        ),
    };
    assert(sgen_stmt(inner, ctx_outer_body, ep, m, o1.lc) is Ok);
    assert(sgen_stmt(inner, ctx_outer_body, ep, m, o1.lc) == sgen_while_s(
        inner,
        ctx_outer_body,
        ep,
        m,
        o1.lc,
    ));
    let lc3i = sat_inc(sat_inc(sat_inc(o1.lc)));
    let c2 = inner->While_cond;
    let r2 = sgen_expr(c2, m, lc3i);
    assert(r2 is Ok);
    assert(o1.lc >= lc3);
    assert(sat_inc(sat_inc(o1.lc)) > sat_inc(sat_inc(lc)));
}

/// The short-circuit shape of `a && b`: the left operand's code is followed
/// by one comparison and one conditional branch to the false arm; the right
/// operand's code stands after that branch and before the false arm's
/// label, so it runs only when the left operand was nonzero, and the false
/// arm is reached only by that branch.
pub proof fn lemma_short_circuit_and(e: Expr, m: AllocModel, lc: usize)
    requires
        e matches Expr::BinOp(op, _, _) && op == BinaryOp::LogicalAnd,
        sgen_expr(e, m, lc) is Ok,
    ensures
        ({
            let lhs = e->BinOp_1;
            let rhs = e->BinOp_2;
            let false_l = Lbl { kind: LabelKind::AndFalse, num: sat_inc(lc) };
            let end_l = Lbl { kind: LabelKind::AndEnd, num: sat_inc(sat_inc(lc)) };
            let r1 = sgen_expr(*lhs, m, sat_inc(sat_inc(lc)));
            r1 matches Ok(o1) && {
                let r2 = sgen_expr(*rhs, m, o1.lc);
                r2 matches Ok(o2) && sgen_expr(e, m, lc)->Ok_0.ins == o1.ins + seq![
                    InstrV::Op(Op::CmpW0Zero),
                    InstrV::Op(Op::BDotEq(false_l)),
                ] + o2.ins + seq![
                    InstrV::Op(Op::CmpW0Zero),
                    InstrV::Op(Op::CsetW0(CondCode::Ne)),
                    InstrV::Op(Op::B(end_l)),
                    InstrV::Op(Op::LabelDef(false_l)),
                    InstrV::Op(Op::MovW0Imm(0)),
                    InstrV::Op(Op::LabelDef(end_l)),
                ]
            }
        }),
{
}

/// The short-circuit shape of `a || b`: the left operand's code is
/// followed by one comparison and one conditional branch to the true arm,
/// which lies after the right operand's code, so the right operand's code
/// runs only when the left operand was zero.
pub proof fn lemma_short_circuit_or(e: Expr, m: AllocModel, lc: usize)
    requires
        e matches Expr::BinOp(op, _, _) && op == BinaryOp::LogicalOr,
        sgen_expr(e, m, lc) is Ok,
    ensures
        ({
            let lhs = e->BinOp_1;
            let rhs = e->BinOp_2;
            let true_l = Lbl { kind: LabelKind::OrTrue, num: sat_inc(lc) };
            let end_l = Lbl { kind: LabelKind::OrEnd, num: sat_inc(sat_inc(lc)) };
            let r1 = sgen_expr(*lhs, m, sat_inc(sat_inc(lc)));
            r1 matches Ok(o1) && {
                let r2 = sgen_expr(*rhs, m, o1.lc);
                r2 matches Ok(o2) && sgen_expr(e, m, lc)->Ok_0.ins == o1.ins + seq![
                    InstrV::Op(Op::CmpW0Zero),
                    InstrV::Op(Op::BDotNe(true_l)),
                ] + o2.ins + seq![
                    InstrV::Op(Op::CmpW0Zero),
                    InstrV::Op(Op::CsetW0(CondCode::Ne)),
                    InstrV::Op(Op::B(end_l)),
                    InstrV::Op(Op::LabelDef(true_l)),
                    InstrV::Op(Op::MovW0Imm(1)),
                    InstrV::Op(Op::LabelDef(end_l)),
                ]
            }
        }),
{
}

/// The placement of a nine-argument call: the first eight argument
/// positions move into the argument registers, the ninth is pushed to its
/// aligned stack slot, sixteen bytes are reserved for it, and the exact
/// reversal (freeing the argument bytes, popping and applying the saved
/// alignment padding) follows the call, so the caller's stack pointer is
/// restored.
pub proof fn lemma_ninth_argument(name: Seq<char>, args: Vec<Expr>, m: AllocModel, lc: usize)
    requires
        args@.len() == 9,
        sgen_call(name, args, m, lc) is Ok,
    ensures
        spec_arg_bytes(args@.len() as nat) == 16,
        ({
            let o = sgen_call(name, args, m, lc)->Ok_0;
            let r9 = sgen_expr(args[8], m, lc);
            &&& o.ins[0] == InstrV::Op(Op::MovX9Sp)
            &&& o.ins[1] == InstrV::Op(Op::SubX9Imm(16))
            &&& o.ins[2] == InstrV::Op(Op::AndX10X9)
            &&& o.ins[3] == InstrV::Op(Op::SubSpX10)
            &&& o.ins[4] == InstrV::Op(Op::PushX10)
            // The ninth argument (position 8) is evaluated first and pushed
            // to the stack.
            &&& r9 matches Ok(o9) && o.ins.subrange(5, 5 + o9.ins.len() as int) == o9.ins
                && o.ins[5 + o9.ins.len() as int] == InstrV::Op(Op::PushW0)
            // The call is followed by the exact reversal of the stack
            // adjustment.
            &&& o.ins[o.ins.len() - 4] == InstrV::Sym(
                crate::generator::instr::SymKind::Call,
                name,
            )
            &&& o.ins[o.ins.len() - 3] == InstrV::Op(Op::AddSpImm(16))
            &&& o.ins[o.ins.len() - 2] == InstrV::Op(Op::PopX9)
            &&& o.ins[o.ins.len() - 1] == InstrV::Op(Op::AddSpX9)
        }),
{
    let ra = sgen_args(args, 9, m, lc);
    assert(ra is Ok);
    let o9r = sgen_expr(args[8], m, lc);
    assert(o9r is Ok);
    let o9 = o9r->Ok_0;
    let rest = sgen_args(args, 8, m, o9.lc);
    assert(rest is Ok);
    assert(ra->Ok_0.ins =~= o9.ins + seq![InstrV::Op(Op::PushW0)] + rest->Ok_0.ins);
    let o = sgen_call(name, args, m, lc)->Ok_0;
    assert(o.ins =~= seq![
        InstrV::Op(Op::MovX9Sp),
        InstrV::Op(Op::SubX9Imm(16)),
        InstrV::Op(Op::AndX10X9),
        InstrV::Op(Op::SubSpX10),
        InstrV::Op(Op::PushX10),
    ] + ra->Ok_0.ins + seq![
        InstrV::Sym(crate::generator::instr::SymKind::Call, name),
        InstrV::Op(Op::AddSpImm(16)),
        InstrV::Op(Op::PopX9),
        InstrV::Op(Op::AddSpX9),
    ]);
    assert(o.ins.subrange(5, 5 + o9.ins.len() as int) =~= o9.ins);
}

/// Every argument position below eight moves into its own argument
/// register: the placement instruction after argument `j`'s code is
/// `mov w<j>, w0` for `j < 8` and a stack push for later positions.
pub proof fn lemma_argument_placement(args: Vec<Expr>, j: int, m: AllocModel, lc: usize)
    requires
        0 < j <= args@.len(),
        sgen_args(args, j, m, lc) is Ok,
    ensures
        ({
            let r1 = sgen_expr(args[j - 1], m, lc);
            r1 matches Ok(o1) && {
                let rest = sgen_args(args, j - 1, m, o1.lc);
                rest matches Ok(o2) && sgen_args(args, j, m, lc)->Ok_0.ins == o1.ins + seq![
                    if j - 1 < 8 {
                        InstrV::Op(Op::MovWW((j - 1) as u8, 0))
                    } else {
                        InstrV::Op(Op::PushW0)
                    },
                ] + o2.ins
            }
        }),
{
}

} // verus!
