//! Lowering of statements, declarations and blocks to instructions, against
//! exact spec mirrors, with the scope discipline of the storage allocator.

use crate::ast::{BlockItem, Declaration, Expr, Statement};
use crate::generator::allocator::{alloc_wf, spec_allocate, AllocModel};
use crate::generator::arm64::{
    bout_post, gen_expr, gen_post, sgen_expr, sstore_w0, BOut, CodegenError, EOut, Gen, LoopCtx,
};
use crate::generator::instr::{iviews, Instr, InstrV, Op};
use crate::generator::label::{sat_inc, Lbl, LabelKind};
use vstd::prelude::*;

verus! {

broadcast use crate::generator::instr::lemma_iviews_push, crate::generator::instr::lemma_iviews_concat;

/// The character sequences of a list of names.
pub open spec fn names_of(s: Seq<String>) -> Seq<Seq<char>> {
    Seq::new(s.len(), |i: int| s[i]@)
}

/// Exact lowering of an optional expression: nothing for `None`.
pub open spec fn sgen_opt_expr(oe: Option<Expr>, m: AllocModel, lc: usize) -> Result<
    EOut,
    CodegenError,
>
    decreases oe, 3int, 0int,
{
    match oe {
        Option::Some(e) => sgen_expr(e, m, lc),
        Option::None => Ok(EOut { ins: Seq::empty(), lc }),
    }
}

/// Exact lowering of one declaration: the name is bound first (so an
/// initializer sees the new binding), then the initializer, if any, is
/// lowered and stored.
pub open spec fn sgen_decl(d: Declaration, m: AllocModel, lc: usize) -> Result<BOut, CodegenError>
    decreases d, 1int, 0int,
{
    match d {
        Declaration::Declare(name, Option::Some(e)) => {
            let a = spec_allocate(m, name@, 4);
            match sgen_expr(e, a.0, lc) {
                Ok(r1) => Ok(BOut { ins: r1.ins + seq![sstore_w0(a.1)], m: a.0, lc: r1.lc }),
                Err(er) => Err(er),
            }
        },
        Declaration::Declare(name, Option::None) => {
            let a = spec_allocate(m, name@, 4);
            Ok(BOut { ins: Seq::empty(), m: a.0, lc })
        },
    }
}

/// Exact lowering of a conditional statement.
pub open spec fn sgen_if_s(s: Statement, ctx: LoopCtx, ep: Lbl, m: AllocModel, lc: usize) -> Result<
    EOut,
    CodegenError,
>
    decreases s, 3int, 0int,
{
    match s {
        Statement::If { cond, then, els } => {
            let else_l = Lbl { kind: LabelKind::Else, num: sat_inc(lc) };
            let post_l = Lbl { kind: LabelKind::PostConditional, num: sat_inc(sat_inc(lc)) };
            match sgen_expr(cond, m, sat_inc(sat_inc(lc))) {
                Ok(r1) => match sgen_stmt(*then, ctx, ep, m, r1.lc) {
                    Ok(r2) => match els {
                        Option::Some(eb) => match sgen_stmt(*eb, ctx, ep, m, r2.lc) {
                            Ok(r3) => Ok(
                                EOut {
                                    ins: r1.ins + seq![
                                        InstrV::Op(Op::CmpW0Zero),
                                        InstrV::Op(Op::Beq(else_l)),
                                    ] + r2.ins + seq![
                                        InstrV::Op(Op::B(post_l)),
                                        InstrV::Op(Op::LabelDef(else_l)),
                                    ] + r3.ins + seq![InstrV::Op(Op::LabelDef(post_l))],
                                    lc: r3.lc,
                                },
                            ),
                            Err(er) => Err(er),
                        },
                        Option::None => Ok(
                            EOut {
                                ins: r1.ins + seq![
                                    InstrV::Op(Op::CmpW0Zero),
                                    InstrV::Op(Op::Beq(else_l)),
                                ] + r2.ins + seq![
                                    InstrV::Op(Op::B(post_l)),
                                    InstrV::Op(Op::LabelDef(else_l)),
                                    InstrV::Op(Op::LabelDef(post_l)),
                                ],
                                lc: r2.lc,
                            },
                        ),
                    },
                    Err(er) => Err(er),
                },
                Err(er) => Err(er),
            }
        },
        // The dispatcher applies this mirror only to the matching variant.
        _ => Err(CodegenError::MissingFunctionBody),
    }
}

/// Exact lowering of a while loop. The continue label is defined at the
/// top of the loop, before the condition's code, so `continue` re-tests the
/// condition before the body may run again.
pub open spec fn sgen_while_s(s: Statement, ctx: LoopCtx, ep: Lbl, m: AllocModel, lc: usize) -> Result<
    EOut,
    CodegenError,
>
    decreases s, 3int, 0int,
{
    match s {
        Statement::While { cond, body } => {
            let start = Lbl { kind: LabelKind::WhileStart, num: sat_inc(lc) };
            let cont = Lbl { kind: LabelKind::WhileContinue, num: sat_inc(sat_inc(lc)) };
            let fin = Lbl { kind: LabelKind::WhileEnd, num: sat_inc(sat_inc(sat_inc(lc))) };
            match sgen_expr(cond, m, sat_inc(sat_inc(sat_inc(lc)))) {
                Ok(r1) => {
                    let ctx2 = LoopCtx {
                        break_label: Option::Some(fin),
                        continue_label: Option::Some(cont),
                    };
                    match sgen_stmt(*body, ctx2, ep, m, r1.lc) {
                        Ok(r2) => Ok(
                            EOut {
                                ins: seq![
                                    InstrV::Op(Op::LabelDef(start)),
                                    InstrV::Op(Op::LabelDef(cont)),
                                ] + r1.ins + seq![
                                    InstrV::Op(Op::CmpW0Zero),
                                    InstrV::Op(Op::Beq(fin)),
                                ] + r2.ins + seq![
                                    InstrV::Op(Op::B(start)),
                                    InstrV::Op(Op::LabelDef(fin)),
                                ],
                                lc: r2.lc,
                            },
                        ),
                        Err(er) => Err(er),
                    }
                },
                Err(er) => Err(er),
            }
        },
        // The dispatcher applies this mirror only to the matching variant.
        _ => Err(CodegenError::MissingFunctionBody),
    }
}

/// Exact lowering of a do-while loop.
pub open spec fn sgen_do_s(s: Statement, ctx: LoopCtx, ep: Lbl, m: AllocModel, lc: usize) -> Result<
    EOut,
    CodegenError,
>
    decreases s, 3int, 0int,
{
    match s {
        Statement::Do { body, cond } => {
            let start = Lbl { kind: LabelKind::DoStart, num: sat_inc(lc) };
            let cont = Lbl { kind: LabelKind::DoContinue, num: sat_inc(sat_inc(lc)) };
            let fin = Lbl { kind: LabelKind::DoEnd, num: sat_inc(sat_inc(sat_inc(lc))) };
            let ctx2 = LoopCtx {
                break_label: Option::Some(fin),
                continue_label: Option::Some(cont),
            };
            match sgen_stmt(*body, ctx2, ep, m, sat_inc(sat_inc(sat_inc(lc)))) {
                Ok(r1) => match sgen_expr(cond, m, r1.lc) {
                    Ok(r2) => Ok(
                        EOut {
                            ins: seq![
                                InstrV::Op(Op::LabelDef(start)),
                                InstrV::Op(Op::LabelDef(cont)),
                            ] + r1.ins + r2.ins + seq![
                                InstrV::Op(Op::CmpW0Zero),
                                InstrV::Op(Op::Beq(fin)),
                                InstrV::Op(Op::B(start)),
                                InstrV::Op(Op::LabelDef(fin)),
                            ],
                            lc: r2.lc,
                        },
                    ),
                    Err(er) => Err(er),
                },
                Err(er) => Err(er),
            }
        },
        // The dispatcher applies this mirror only to the matching variant.
        _ => Err(CodegenError::MissingFunctionBody),
    }
}

/// Exact lowering of a for loop with an expression initializer.
pub open spec fn sgen_for_s(s: Statement, ctx: LoopCtx, ep: Lbl, m: AllocModel, lc: usize) -> Result<
    EOut,
    CodegenError,
>
    decreases s, 3int, 0int,
{
    match s {
        Statement::For { init, cond, post, body } => {
            let start = Lbl { kind: LabelKind::ForStart, num: sat_inc(lc) };
            let cont = Lbl { kind: LabelKind::ForContinue, num: sat_inc(sat_inc(lc)) };
            let fin = Lbl { kind: LabelKind::ForEnd, num: sat_inc(sat_inc(sat_inc(lc))) };
            match sgen_opt_expr(init, m, sat_inc(sat_inc(sat_inc(lc)))) {
                Ok(r0) => match sgen_expr(cond, m, r0.lc) {
                    Ok(r1) => {
                        let ctx2 = LoopCtx {
                            break_label: Option::Some(fin),
                            continue_label: Option::Some(cont),
                        };
                        match sgen_stmt(*body, ctx2, ep, m, r1.lc) {
                            Ok(r2) => match sgen_opt_expr(post, m, r2.lc) {
                                Ok(r3) => Ok(
                                    EOut {
                                        ins: r0.ins + seq![InstrV::Op(Op::LabelDef(start))]
                                            + r1.ins + seq![
                                            InstrV::Op(Op::CmpW0Zero),
                                            InstrV::Op(Op::Beq(fin)),
                                        ] + r2.ins + seq![InstrV::Op(Op::LabelDef(cont))] + r3.ins
                                            + seq![
                                            InstrV::Op(Op::B(start)),
                                            InstrV::Op(Op::LabelDef(fin)),
                                        ],
                                        lc: r3.lc,
                                    },
                                ),
                                Err(er) => Err(er),
                            },
                            Err(er) => Err(er),
                        }
                    },
                    Err(er) => Err(er),
                },
                Err(er) => Err(er),
            }
        },
        // The dispatcher applies this mirror only to the matching variant.
        _ => Err(CodegenError::MissingFunctionBody),
    }
}

/// Exact lowering of a for loop with a declaration initializer.
pub open spec fn sgen_for_decl_s(s: Statement, ctx: LoopCtx, ep: Lbl, m: AllocModel, lc: usize) -> Result<
    EOut,
    CodegenError,
>
    decreases s, 3int, 0int,
{
    match s {
        Statement::ForDecl { decl, cond, post, body } => {
            match sgen_decl(decl, m, lc) {
                Ok(rd) => {
                    let start = Lbl { kind: LabelKind::ForDeclStart, num: sat_inc(rd.lc) };
                    let cont = Lbl { kind: LabelKind::ForDeclContinue, num: sat_inc(sat_inc(rd.lc)) };
                    let fin = Lbl { kind: LabelKind::ForDeclEnd, num: sat_inc(sat_inc(sat_inc(rd.lc))) };
                    match sgen_expr(cond, rd.m, sat_inc(sat_inc(sat_inc(rd.lc)))) {
                        Ok(r1) => {
                            let ctx2 = LoopCtx {
                                break_label: Option::Some(fin),
                                continue_label: Option::Some(cont),
                            };
                            match sgen_stmt(*body, ctx2, ep, rd.m, r1.lc) {
                                Ok(r2) => match sgen_opt_expr(post, rd.m, r2.lc) {
                                    Ok(r3) => Ok(
                                        EOut {
                                            ins: rd.ins + seq![InstrV::Op(Op::LabelDef(start))]
                                                + r1.ins + seq![
                                                InstrV::Op(Op::CmpW0Zero),
                                                InstrV::Op(Op::Beq(fin)),
                                            ] + r2.ins + seq![InstrV::Op(Op::LabelDef(cont))]
                                                + r3.ins + seq![
                                                InstrV::Op(Op::B(start)),
                                                InstrV::Op(Op::LabelDef(fin)),
                                            ],
                                            lc: r3.lc,
                                        },
                                    ),
                                    Err(er) => Err(er),
                                },
                                Err(er) => Err(er),
                            }
                        },
                        Err(er) => Err(er),
                    }
                },
                Err(er) => Err(er),
            }
        },
        // The dispatcher applies this mirror only to the matching variant.
        _ => Err(CodegenError::MissingFunctionBody),
    }
}

/// Exact lowering of one statement under a loop context and the function's
/// single epilogue label. Statements leave the allocator as they found it:
/// every construct that declares names restores the saved allocator state
/// when its scope ends.
pub open spec fn sgen_stmt(s: Statement, ctx: LoopCtx, ep: Lbl, m: AllocModel, lc: usize) -> Result<
    EOut,
    CodegenError,
>
    decreases s, 4int, 0int,
{
    match s {
        Statement::Expr(Option::Some(e)) => sgen_expr(e, m, lc),
        Statement::Expr(Option::None) => Ok(EOut { ins: Seq::empty(), lc }),
        Statement::Return(e) => match sgen_expr(e, m, lc) {
            Ok(r1) => Ok(EOut { ins: r1.ins + seq![InstrV::Op(Op::B(ep))], lc: r1.lc }),
            Err(er) => Err(er),
        },
        Statement::Bingus(e) => match sgen_expr(e, m, lc) {
            Ok(r1) => Ok(EOut { ins: r1.ins + seq![InstrV::Op(Op::BlBingus)], lc: r1.lc }),
            Err(er) => Err(er),
        },
        Statement::If { .. } => sgen_if_s(s, ctx, ep, m, lc),
        Statement::Compound(items) => match sgen_block(items, ctx, ep, m, lc, Seq::empty()) {
            Ok(o) => Ok(EOut { ins: o.ins, lc: o.lc }),
            Err(er) => Err(er),
        },
        Statement::While { .. } => sgen_while_s(s, ctx, ep, m, lc),
        Statement::Do { .. } => sgen_do_s(s, ctx, ep, m, lc),
        Statement::For { .. } => sgen_for_s(s, ctx, ep, m, lc),
        Statement::ForDecl { .. } => sgen_for_decl_s(s, ctx, ep, m, lc),
        Statement::Break => match ctx.break_label {
            Option::Some(l) => Ok(EOut { ins: seq![InstrV::Op(Op::B(l))], lc }),
            Option::None => Err(CodegenError::BreakOutsideLoop),
        },
        Statement::Continue => match ctx.continue_label {
            Option::Some(l) => Ok(EOut { ins: seq![InstrV::Op(Op::B(l))], lc }),
            Option::None => Err(CodegenError::ContinueOutsideLoop),
        },
    }
}

/// Exact lowering of one block item.
pub open spec fn sgen_item(it: BlockItem, ctx: LoopCtx, ep: Lbl, m: AllocModel, lc: usize) -> Result<
    BOut,
    CodegenError,
>
    decreases it, 5int, 0int,
{
    match it {
        BlockItem::Decl(d) => sgen_decl(d, m, lc),
        BlockItem::Stmt(s) => match sgen_stmt(s, ctx, ep, m, lc) {
            Ok(o) => Ok(BOut { ins: o.ins, m, lc: o.lc }),
            Err(er) => Err(er),
        },
    }
}

/// Exact lowering of the items of a block from position `i` on. `seen`
/// holds the names already declared in this block (and, at a function's top
/// level, its parameter names): declaring one of them again is the
/// scope-conflict error.
pub open spec fn sgen_items(
    items: Vec<BlockItem>,
    i: int,
    ctx: LoopCtx,
    ep: Lbl,
    m: AllocModel,
    lc: usize,
    seen: Seq<Seq<char>>,
) -> Result<BOut, CodegenError>
    decreases items, 6int, items@.len() - i,
{
    if i < 0 || i >= items@.len() {
        Ok(BOut { ins: Seq::empty(), m, lc })
    } else {
        let dup = match items[i] {
            BlockItem::Decl(Declaration::Declare(name, _)) => seen.contains(name@),
            _ => false,
        };
        if dup {
            Err(CodegenError::RedeclaredVariable)
        } else {
            let seen2 = match items[i] {
                BlockItem::Decl(Declaration::Declare(name, _)) => seen.push(name@),
                _ => seen,
            };
            match sgen_item(items[i], ctx, ep, m, lc) {
                Ok(o1) => match sgen_items(items, i + 1, ctx, ep, o1.m, o1.lc, seen2) {
                    Ok(o2) => Ok(BOut { ins: o1.ins + o2.ins, m: o2.m, lc: o2.lc }),
                    Err(er) => Err(er),
                },
                Err(er) => Err(er),
            }
        }
    }
}

/// Exact lowering of a whole block: its items in order, after which the
/// allocator state saved at entry is restored, so bindings and stack
/// offsets of a finished block do not leak into sibling scopes.
pub open spec fn sgen_block(
    items: Vec<BlockItem>,
    ctx: LoopCtx,
    ep: Lbl,
    m: AllocModel,
    lc: usize,
    outer: Seq<Seq<char>>,
) -> Result<BOut, CodegenError>
    decreases items, 7int, 0int,
{
    match sgen_items(items, 0, ctx, ep, m, lc, outer) {
        Ok(o) => Ok(BOut { ins: o.ins, m, lc: o.lc }),
        Err(er) => Err(er),
    }
}

/// Lowers one declaration: allocates its storage and lowers the
/// initializer, if any, into it.
pub(crate) fn gen_declaration(g: &mut Gen, d: &Declaration) -> (r: Result<(), CodegenError>)
    requires
        alloc_wf(old(g).allocator@),
    ensures
        bout_post(*old(g), *final(g), r, sgen_decl(*d, old(g).allocator@, old(g).labels@)),
    decreases *d, 1int, 0int,
{
    let ghost m = g.allocator@;
    let ghost lc0 = g.labels@;
    let ghost out0 = g.out@;
    let ghost sp = sgen_decl(*d, m, lc0);
    match d {
        Declaration::Declare(name, init) => {
            let var = g.allocator.allocate(name.clone(), 4);
            proof {
                assert(!(var is Global));
            }
            match init {
                Option::None => Ok(()),
                Option::Some(e) => {
                    match gen_expr(g, e) {
                        Err(er) => Err(er),
                        Ok(()) => {
                            var.emit_store_from_w0(&mut g.out);
                            proof {
                                assert(iviews(g.out@) =~= iviews(out0) + sp->Ok_0.ins);
                            }
                            Ok(())
                        },
                    }
                },
            }
        },
    }
}

/// Lowers one block item.
#[verifier::rlimit(60)]
pub(crate) fn gen_block_item(g: &mut Gen, ctx: LoopCtx, item: &BlockItem) -> (r: Result<
    (),
    CodegenError,
>)
    requires
        alloc_wf(old(g).allocator@),
    ensures
        bout_post(
            *old(g),
            *final(g),
            r,
            sgen_item(*item, ctx, old(g).epilogue, old(g).allocator@, old(g).labels@),
        ),
    decreases *item, 6int, 0int,
{
    match item {
        BlockItem::Decl(d) => gen_declaration(g, d),
        BlockItem::Stmt(s) => gen_stmt(g, ctx, s),
    }
}

/// Lowers one statement with the allocator snapshot taken before and
/// restored afterwards, so a loop body's scope is exactly the loop.
pub(crate) fn gen_statement_in_new_scope(g: &mut Gen, ctx: LoopCtx, stmt: &Statement) -> (r: Result<
    (),
    CodegenError,
>)
    requires
        alloc_wf(old(g).allocator@),
    ensures
        gen_post(
            *old(g),
            *final(g),
            r,
            sgen_stmt(*stmt, ctx, old(g).epilogue, old(g).allocator@, old(g).labels@),
        ),
    decreases *stmt, 6int, 0int,
{
    let saved = g.allocator.snapshot();
    match gen_stmt(g, ctx, stmt) {
        Err(er) => Err(er),
        Ok(()) => {
            g.allocator = saved;
            Ok(())
        },
    }
}

#[verifier::rlimit(60)]
fn gen_if(g: &mut Gen, ctx: LoopCtx, stmt: &Statement) -> (r: Result<(), CodegenError>)
    requires
        alloc_wf(old(g).allocator@),
        stmt is If,
    ensures
        gen_post(
            *old(g),
            *final(g),
            r,
            sgen_stmt(*stmt, ctx, old(g).epilogue, old(g).allocator@, old(g).labels@),
        ),
    decreases *stmt, 4int, 0int,
{
    let ghost m = g.allocator@;
    let ghost lc0 = g.labels@;
    let ghost out0 = g.out@;
    let ghost sp = sgen_stmt(*stmt, ctx, g.epilogue, m, lc0);
    match stmt {
        Statement::If { cond, then, els } => {
            let else_l = g.labels.fresh(LabelKind::Else);
            let post_l = g.labels.fresh(LabelKind::PostConditional);
            match gen_expr(g, cond) {
                Err(er) => Err(er),
                Ok(()) => {
                    g.out.push(Instr::Op(Op::CmpW0Zero));
                    g.out.push(Instr::Op(Op::Beq(else_l)));
                    match gen_stmt(g, ctx, then) {
                        Err(er) => Err(er),
                        Ok(()) => {
                            g.out.push(Instr::Op(Op::B(post_l)));
                            g.out.push(Instr::Op(Op::LabelDef(else_l)));
                            match els {
                                Option::Some(eb) => {
                                    match gen_stmt(g, ctx, eb) {
                                        Err(er) => Err(er),
                                        Ok(()) => {
                                            g.out.push(Instr::Op(Op::LabelDef(post_l)));
                                            proof {
                                                assert(iviews(g.out@) =~= iviews(out0)
                                                    + sp->Ok_0.ins);
                                            }
                                            Ok(())
                                        },
                                    }
                                },
                                Option::None => {
                                    g.out.push(Instr::Op(Op::LabelDef(post_l)));
                                    proof {
                                        assert(iviews(g.out@) =~= iviews(out0) + sp->Ok_0.ins);
                                    }
                                    Ok(())
                                },
                            }
                        },
                    }
                },
            }
        },
        _ => {
            // The dispatcher sends only the matching variant here.
            proof {
                assert(false);
            }
            Err(CodegenError::MissingFunctionBody)
        },
    }
}

#[verifier::rlimit(60)]
fn gen_while(g: &mut Gen, ctx: LoopCtx, stmt: &Statement) -> (r: Result<(), CodegenError>)
    requires
        alloc_wf(old(g).allocator@),
        stmt is While,
    ensures
        gen_post(
            *old(g),
            *final(g),
            r,
            sgen_stmt(*stmt, ctx, old(g).epilogue, old(g).allocator@, old(g).labels@),
        ),
    decreases *stmt, 4int, 0int,
{
    let ghost m = g.allocator@;
    let ghost lc0 = g.labels@;
    let ghost out0 = g.out@;
    let ghost sp = sgen_stmt(*stmt, ctx, g.epilogue, m, lc0);
    match stmt {
        Statement::While { cond, body } => {
            let start = g.labels.fresh(LabelKind::WhileStart);
            let cont = g.labels.fresh(LabelKind::WhileContinue);
            let fin = g.labels.fresh(LabelKind::WhileEnd);
            g.out.push(Instr::Op(Op::LabelDef(start)));
            g.out.push(Instr::Op(Op::LabelDef(cont)));
            match gen_expr(g, cond) {
                Err(er) => Err(er),
                Ok(()) => {
                    g.out.push(Instr::Op(Op::CmpW0Zero));
                    g.out.push(Instr::Op(Op::Beq(fin)));
                    let ctx2 = LoopCtx {
                        break_label: Option::Some(fin),
                        continue_label: Option::Some(cont),
                    };
                    match gen_statement_in_new_scope(g, ctx2, body) {
                        Err(er) => Err(er),
                        Ok(()) => {
                            g.out.push(Instr::Op(Op::B(start)));
                            g.out.push(Instr::Op(Op::LabelDef(fin)));
                            proof {
                                assert(iviews(g.out@) =~= iviews(out0) + sp->Ok_0.ins);
                            }
                            Ok(())
                        },
                    }
                },
            }
        },
        _ => {
            // The dispatcher sends only the matching variant here.
            proof {
                assert(false);
            }
            Err(CodegenError::MissingFunctionBody)
        },
    }
}

#[verifier::rlimit(60)]
fn gen_do(g: &mut Gen, ctx: LoopCtx, stmt: &Statement) -> (r: Result<(), CodegenError>)
    requires
        alloc_wf(old(g).allocator@),
        stmt is Do,
    ensures
        gen_post(
            *old(g),
            *final(g),
            r,
            sgen_stmt(*stmt, ctx, old(g).epilogue, old(g).allocator@, old(g).labels@),
        ),
    decreases *stmt, 4int, 0int,
{
    let ghost m = g.allocator@;
    let ghost lc0 = g.labels@;
    let ghost out0 = g.out@;
    let ghost sp = sgen_stmt(*stmt, ctx, g.epilogue, m, lc0);
    match stmt {
        Statement::Do { body, cond } => {
            let start = g.labels.fresh(LabelKind::DoStart);
            let cont = g.labels.fresh(LabelKind::DoContinue);
            let fin = g.labels.fresh(LabelKind::DoEnd);
            g.out.push(Instr::Op(Op::LabelDef(start)));
            g.out.push(Instr::Op(Op::LabelDef(cont)));
            let ctx2 = LoopCtx {
                break_label: Option::Some(fin),
                continue_label: Option::Some(cont),
            };
            match gen_statement_in_new_scope(g, ctx2, body) {
                Err(er) => Err(er),
                Ok(()) => {
                    match gen_expr(g, cond) {
                        Err(er) => Err(er),
                        Ok(()) => {
                            g.out.push(Instr::Op(Op::CmpW0Zero));
                            g.out.push(Instr::Op(Op::Beq(fin)));
                            g.out.push(Instr::Op(Op::B(start)));
                            g.out.push(Instr::Op(Op::LabelDef(fin)));
                            proof {
                                assert(iviews(g.out@) =~= iviews(out0) + sp->Ok_0.ins);
                            }
                            Ok(())
                        },
                    }
                },
            }
        },
        _ => {
            // The dispatcher sends only the matching variant here.
            proof {
                assert(false);
            }
            Err(CodegenError::MissingFunctionBody)
        },
    }
}

#[verifier::rlimit(60)]
fn gen_for(g: &mut Gen, ctx: LoopCtx, stmt: &Statement) -> (r: Result<(), CodegenError>)
    requires
        alloc_wf(old(g).allocator@),
        stmt is For,
    ensures
        gen_post(
            *old(g),
            *final(g),
            r,
            sgen_stmt(*stmt, ctx, old(g).epilogue, old(g).allocator@, old(g).labels@),
        ),
    decreases *stmt, 4int, 0int,
{
    let ghost m = g.allocator@;
    let ghost lc0 = g.labels@;
    let ghost out0 = g.out@;
    let ghost sp = sgen_stmt(*stmt, ctx, g.epilogue, m, lc0);
    match stmt {
        Statement::For { init, cond, post, body } => {
            let start = g.labels.fresh(LabelKind::ForStart);
            let cont = g.labels.fresh(LabelKind::ForContinue);
            let fin = g.labels.fresh(LabelKind::ForEnd);
            let init_result = match init {
                Option::Some(ie) => gen_expr(g, ie),
                Option::None => Ok(()),
            };
            match init_result {
                Err(er) => Err(er),
                Ok(()) => {
                    g.out.push(Instr::Op(Op::LabelDef(start)));
                    match gen_expr(g, cond) {
                        Err(er) => Err(er),
                        Ok(()) => {
                            g.out.push(Instr::Op(Op::CmpW0Zero));
                            g.out.push(Instr::Op(Op::Beq(fin)));
                            let ctx2 = LoopCtx {
                                break_label: Option::Some(fin),
                                continue_label: Option::Some(cont),
                            };
                            match gen_statement_in_new_scope(g, ctx2, body) {
                                Err(er) => Err(er),
                                Ok(()) => {
                                    g.out.push(Instr::Op(Op::LabelDef(cont)));
                                    let post_result = match post {
                                        Option::Some(pe) => gen_expr(g, pe),
                                        Option::None => Ok(()),
                                    };
                                    match post_result {
                                        Err(er) => Err(er),
                                        Ok(()) => {
                                            g.out.push(Instr::Op(Op::B(start)));
                                            g.out.push(Instr::Op(Op::LabelDef(fin)));
                                            proof {
                                                assert(iviews(g.out@) =~= iviews(out0)
                                                    + sp->Ok_0.ins);
                                            }
                                            Ok(())
                                        },
                                    }
                                },
                            }
                        },
                    }
                },
            }
        },
        _ => {
            // The dispatcher sends only the matching variant here.
            proof {
                assert(false);
            }
            Err(CodegenError::MissingFunctionBody)
        },
    }
}

#[verifier::rlimit(60)]
fn gen_for_decl(g: &mut Gen, ctx: LoopCtx, stmt: &Statement) -> (r: Result<(), CodegenError>)
    requires
        alloc_wf(old(g).allocator@),
        stmt is ForDecl,
    ensures
        gen_post(
            *old(g),
            *final(g),
            r,
            sgen_stmt(*stmt, ctx, old(g).epilogue, old(g).allocator@, old(g).labels@),
        ),
    decreases *stmt, 4int, 0int,
{
    let ghost m = g.allocator@;
    let ghost lc0 = g.labels@;
    let ghost out0 = g.out@;
    let ghost sp = sgen_stmt(*stmt, ctx, g.epilogue, m, lc0);
    match stmt {
        Statement::ForDecl { decl, cond, post, body } => {
            let saved = g.allocator.snapshot();
            match gen_declaration(g, decl) {
                Err(er) => Err(er),
                Ok(()) => {
                    let start = g.labels.fresh(LabelKind::ForDeclStart);
                    let cont = g.labels.fresh(LabelKind::ForDeclContinue);
                    let fin = g.labels.fresh(LabelKind::ForDeclEnd);
                    g.out.push(Instr::Op(Op::LabelDef(start)));
                    match gen_expr(g, cond) {
                        Err(er) => Err(er),
                        Ok(()) => {
                            g.out.push(Instr::Op(Op::CmpW0Zero));
                            g.out.push(Instr::Op(Op::Beq(fin)));
                            let ctx2 = LoopCtx {
                                break_label: Option::Some(fin),
                                continue_label: Option::Some(cont),
                            };
                            match gen_statement_in_new_scope(g, ctx2, body) {
                                Err(er) => Err(er),
                                Ok(()) => {
                                    g.out.push(Instr::Op(Op::LabelDef(cont)));
                                    let post_result = match post {
                                        Option::Some(pe) => gen_expr(g, pe),
                                        Option::None => Ok(()),
                                    };
                                    match post_result {
                                        Err(er) => Err(er),
                                        Ok(()) => {
                                            g.out.push(Instr::Op(Op::B(start)));
                                            g.out.push(Instr::Op(Op::LabelDef(fin)));
                                            g.allocator = saved;
                                            proof {
                                                assert(iviews(g.out@) =~= iviews(out0)
                                                    + sp->Ok_0.ins);
                                            }
                                            Ok(())
                                        },
                                    }
                                },
                            }
                        },
                    }
                },
            }
        },
        _ => {
            // The dispatcher sends only the matching variant here.
            proof {
                assert(false);
            }
            Err(CodegenError::MissingFunctionBody)
        },
    }
}

/// Lowers one statement.
#[verifier::rlimit(60)]
pub(crate) fn gen_stmt(g: &mut Gen, ctx: LoopCtx, stmt: &Statement) -> (r: Result<
    (),
    CodegenError,
>)
    requires
        alloc_wf(old(g).allocator@),
    ensures
        gen_post(
            *old(g),
            *final(g),
            r,
            sgen_stmt(*stmt, ctx, old(g).epilogue, old(g).allocator@, old(g).labels@),
        ),
    decreases *stmt, 5int, 0int,
{
    let ghost m = g.allocator@;
    let ghost lc0 = g.labels@;
    let ghost out0 = g.out@;
    let ghost sp = sgen_stmt(*stmt, ctx, g.epilogue, m, lc0);
    match stmt {
        Statement::Expr(Option::Some(e)) => gen_expr(g, e),
        Statement::Expr(Option::None) => Ok(()),
        Statement::Return(e) => {
            match gen_expr(g, e) {
                Err(er) => Err(er),
                Ok(()) => {
                    let ep = g.epilogue;
                    g.out.push(Instr::Op(Op::B(ep)));
                    proof {
                        assert(iviews(g.out@) =~= iviews(out0) + sp->Ok_0.ins);
                    }
                    Ok(())
                },
            }
        },
        Statement::Bingus(e) => {
            match gen_expr(g, e) {
                Err(er) => Err(er),
                Ok(()) => {
                    g.out.push(Instr::Op(Op::BlBingus));
                    proof {
                        assert(iviews(g.out@) =~= iviews(out0) + sp->Ok_0.ins);
                    }
                    Ok(())
                },
            }
        },
        Statement::If { .. } => gen_if(g, ctx, stmt),
        Statement::Compound(items) => {
            match gen_block(g, ctx, items, Option::None) {
                Err(er) => Err(er),
                Ok(()) => {
                    proof {
                        assert(iviews(g.out@) =~= iviews(out0) + sp->Ok_0.ins);
                    }
                    Ok(())
                },
            }
        },
        Statement::While { .. } => gen_while(g, ctx, stmt),
        Statement::Do { .. } => gen_do(g, ctx, stmt),
        Statement::For { .. } => gen_for(g, ctx, stmt),
        Statement::ForDecl { .. } => gen_for_decl(g, ctx, stmt),
        Statement::Break => {
            match ctx.break_label {
                Option::Some(l) => {
                    g.out.push(Instr::Op(Op::B(l)));
                    proof {
                        assert(iviews(g.out@) =~= iviews(out0) + sp->Ok_0.ins);
                    }
                    Ok(())
                },
                Option::None => Err(CodegenError::BreakOutsideLoop),
            }
        },
        Statement::Continue => {
            match ctx.continue_label {
                Option::Some(l) => {
                    g.out.push(Instr::Op(Op::B(l)));
                    proof {
                        assert(iviews(g.out@) =~= iviews(out0) + sp->Ok_0.ins);
                    }
                    Ok(())
                },
                Option::None => Err(CodegenError::ContinueOutsideLoop),
            }
        },
    }
}

fn contains_name(seen: &Vec<String>, name: &str) -> (r: bool)
    ensures
        r == names_of(seen@).contains(name@),
{
    let mut k: usize = 0;
    while k < seen.len()
        invariant
            k <= seen@.len(),
            forall|j: int| 0 <= j < k ==> names_of(seen@)[j] != name@,
        decreases seen@.len() - k,
    {
        if crate::text::str_eq(seen[k].as_str(), name) {
            proof {
                assert(names_of(seen@)[k as int] == name@);
            }
            return true;
        }
        k += 1;
    }
    proof {
        assert(!names_of(seen@).contains(name@));
    }
    false
}

/// Lowers the items of a block in order, detecting same-block
/// redeclarations against `outer` (a function's parameter names, at the top
/// level), and restores the allocator state saved at entry.
#[verifier::rlimit(100)]
pub(crate) fn gen_block(
    g: &mut Gen,
    ctx: LoopCtx,
    items: &Vec<BlockItem>,
    outer: Option<&Vec<String>>,
) -> (r: Result<(), CodegenError>)
    requires
        alloc_wf(old(g).allocator@),
    ensures
        bout_post(
            *old(g),
            *final(g),
            r,
            sgen_block(
                *items,
                ctx,
                old(g).epilogue,
                old(g).allocator@,
                old(g).labels@,
                match outer {
                    Option::Some(v) => names_of(v@),
                    Option::None => Seq::empty(),
                },
            ),
        ),
    decreases *items, 7int, 0int,
{
    let ghost m0 = g.allocator@;
    let ghost lc0 = g.labels@;
    let ghost out0 = g.out@;
    let ghost outer0: Seq<Seq<char>> = match outer {
        Option::Some(v) => names_of(v@),
        Option::None => Seq::empty(),
    };
    let saved = g.allocator.snapshot();

    let mut seen: Vec<String> = Vec::new();
    match outer {
        Option::Some(names) => {
            let mut k: usize = 0;
            while k < names.len()
                invariant
                    k <= names@.len(),
                    seen@.len() == k,
                    forall|j: int| 0 <= j < k ==> #[trigger] seen@[j]@ == names@[j]@,
                decreases names@.len() - k,
            {
                seen.push(names[k].clone());
                k += 1;
            }
            proof {
                assert(names_of(seen@) =~= names_of(names@));
            }
        },
        Option::None => (),
    }
    proof {
        assert(names_of(seen@) =~= outer0);
    }

    let ghost ep = g.epilogue;
    let mut i: usize = 0;
    while i < items.len()
        invariant
            i <= items@.len(),
            alloc_wf(g.allocator@),
            g.epilogue == old(g).epilogue,
            g.epilogue == ep,
            m0 == old(g).allocator@,
            lc0 == old(g).labels@,
            out0 == old(g).out@,
            outer0 == (match outer {
                Option::Some(v) => names_of(v@),
                Option::None => Seq::<Seq<char>>::empty(),
            }),
            sgen_items(*items, 0, ctx, ep, m0, lc0, outer0) matches Ok(o) ==> {
                &&& sgen_items(*items, i as int, ctx, ep, g.allocator@, g.labels@, names_of(seen@))
                    matches Ok(o2)
                &&& iviews(g.out@) + o2.ins == iviews(out0) + o.ins
                &&& o2.m == o.m
                &&& o2.lc == o.lc
            },
            sgen_items(*items, 0, ctx, ep, m0, lc0, outer0) matches Err(er0) ==> sgen_items(
                *items,
                i as int,
                ctx,
                ep,
                g.allocator@,
                g.labels@,
                names_of(seen@),
            ) == Result::<BOut, CodegenError>::Err(er0),
        decreases items@.len() - i,
    {
        let ghost m_here = g.allocator@;
        let ghost lc_here = g.labels@;
        let ghost out_here = g.out@;
        let ghost seen_here = names_of(seen@);

        match &items[i] {
            BlockItem::Decl(Declaration::Declare(name, _)) => {
                if contains_name(&seen, name.as_str()) {
                    proof {
                        assert(sgen_items(*items, i as int, ctx, ep, m_here, lc_here, seen_here)
                            == Result::<BOut, CodegenError>::Err(
                            CodegenError::RedeclaredVariable,
                        ));
                        assert(sgen_items(*items, 0, ctx, ep, m0, lc0, outer0) == Result::<
                            BOut,
                            CodegenError,
                        >::Err(CodegenError::RedeclaredVariable));
                        assert(sgen_block(*items, ctx, ep, m0, lc0, outer0) == Result::<
                            BOut,
                            CodegenError,
                        >::Err(CodegenError::RedeclaredVariable));
                    }
                    return Err(CodegenError::RedeclaredVariable);
                }
                seen.push(name.clone());
                proof {
                    assert(names_of(seen@) =~= seen_here.push(name@));
                }
            },
            _ => (),
        }
        match gen_block_item(g, ctx, &items[i]) {
            Err(er) => {
                proof {
                    assert(sgen_item(items@[i as int], ctx, ep, m_here, lc_here) == Result::<
                        BOut,
                        CodegenError,
                    >::Err(er));
                    assert(sgen_items(*items, i as int, ctx, ep, m_here, lc_here, seen_here)
                        == Result::<BOut, CodegenError>::Err(er));
                    assert(sgen_items(*items, 0, ctx, ep, m0, lc0, outer0) == Result::<
                        BOut,
                        CodegenError,
                    >::Err(er));
                    assert(sgen_block(*items, ctx, ep, m0, lc0, outer0) == Result::<
                        BOut,
                        CodegenError,
                    >::Err(er));
                }
                return Err(er);
            },
            Ok(()) => (),
        }
        proof {
            if sgen_items(*items, 0, ctx, ep, m0, lc0, outer0) is Ok {
                let o1 = sgen_item(items@[i as int], ctx, ep, m_here, lc_here)->Ok_0;
                let o2 = sgen_items(
                    *items,
                    i + 1 as int,
                    ctx,
                    ep,
                    g.allocator@,
                    g.labels@,
                    names_of(seen@),
                )->Ok_0;
                assert((iviews(out_here) + (o1.ins + o2.ins)) =~= (iviews(out_here) + o1.ins)
                    + o2.ins);
            }
        }
        i += 1;
    }
    proof {
        assert(sgen_items(
            *items,
            items@.len() as int,
            ctx,
            ep,
            g.allocator@,
            g.labels@,
            names_of(seen@),
        ) == Ok::<BOut, CodegenError>(BOut { ins: Seq::empty(), m: g.allocator@, lc: g.labels@ }));
        if sgen_items(*items, 0, ctx, ep, m0, lc0, outer0) is Ok {
            assert(iviews(g.out@) + Seq::<InstrV>::empty() =~= iviews(g.out@));
        }
    }
    g.allocator = saved;
    Ok(())
}

} // verus!
