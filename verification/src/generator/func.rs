//! Function- and program-level code generation: the stack-usage simulation
//! that sizes the frame, the prologue and epilogue, parameter binding, the
//! implicit return, and the concatenation of all function definitions into
//! the final assembly text.

use crate::ast::{BlockItem, Function, Program, TopLevel};
use crate::generator::allocator::{alloc_wf, spec_allocate, AllocModel, Allocator, Variable};
use crate::generator::arm64::{CodegenError, EOut, Gen, LoopCtx};
use crate::generator::bingus::{bingus_used_in_program, sbingus_program};
use crate::generator::instr::{
    iviews, render_instrs, spec_render_all, Instr, InstrV, Op, SymKind,
};
use crate::generator::label::{sat_inc, Lbl, LabelGenerator, LabelKind};
use crate::generator::stack::{simulate_stack_usage, ssim_block, ssim_params};
use crate::generator::stmts::{gen_block, names_of, sgen_block};
use crate::text::str_eq;
use vstd::prelude::*;
use vstd::string::StringExecFns;

verus! {

broadcast use crate::generator::instr::lemma_iviews_push, crate::generator::instr::lemma_iviews_concat;

/// The free-register pool used for locals: the callee-saved registers
/// `w19` through `w28`, handed out from the back of the sequence.
pub open spec fn spec_pool() -> Seq<u8> {
    seq![19u8, 20u8, 21u8, 22u8, 23u8, 24u8, 25u8, 26u8, 27u8, 28u8]
}

/// A fresh allocator model over the free-register pool.
pub open spec fn pool_model() -> AllocModel {
    AllocModel { off: 0, free: spec_pool(), scopes: seq![Seq::empty()] }
}

fn pool_registers() -> (r: Vec<u8>)
    ensures
        r@ == spec_pool(),
{
    let mut v: Vec<u8> = Vec::new();
    v.push(19);
    v.push(20);
    v.push(21);
    v.push(22);
    v.push(23);
    v.push(24);
    v.push(25);
    v.push(26);
    v.push(27);
    v.push(28);
    proof {
        assert(v@ =~= spec_pool());
    }
    v
}

/// The peak stack demand rounded up to the 16-byte alignment the target
/// requires; a nonpositive demand needs no frame bytes.
pub open spec fn spec_round16(mx: i32) -> u64 {
    if mx < 0 {
        0
    } else {
        (((mx + 15) / 16) * 16) as u64
    }
}

/// Whether a block item is guaranteed to execute a `return`: only a
/// statement item can be.
pub open spec fn s_ewr_item(it: BlockItem) -> bool
    decreases it, 0int, 0int,
{
    match it {
        BlockItem::Stmt(s) => s_ewr_stmt(s),
        BlockItem::Decl(_) => false,
    }
}

/// The conservative ends-with-return analysis: true only if the statement
/// is a `return`, an `if` whose two arms are each guaranteed, or a compound
/// block whose last statement item is guaranteed.
pub open spec fn s_ewr_stmt(s: crate::ast::Statement) -> bool
    decreases s, 1int, 0int,
{
    match s {
        crate::ast::Statement::Return(_) => true,
        crate::ast::Statement::If { cond: _, then, els: Option::Some(e) } => s_ewr_stmt(*then)
            && s_ewr_stmt(*e),
        crate::ast::Statement::Compound(items) => s_ewr_items(items, items@.len() - 1),
        _ => false,
    }
}

/// Scans backwards from position `i` for the last statement item and asks
/// whether it is guaranteed to return; trailing declarations are skipped.
pub open spec fn s_ewr_items(items: Vec<BlockItem>, i: int) -> bool
    decreases items, 2int, i + 1,
{
    if i < 0 || i >= items@.len() {
        false
    } else {
        match items[i] {
            BlockItem::Stmt(s) => s_ewr_stmt(s),
            BlockItem::Decl(_) => s_ewr_items(items, i - 1),
        }
    }
}

fn ends_with_return(item: &BlockItem) -> (r: bool)
    ensures
        r == s_ewr_item(*item),
    decreases *item, 0int, 0int,
{
    match item {
        BlockItem::Stmt(s) => stmt_ends_with_return(s),
        BlockItem::Decl(_) => false,
    }
}

fn stmt_ends_with_return(stmt: &crate::ast::Statement) -> (r: bool)
    ensures
        r == s_ewr_stmt(*stmt),
    decreases *stmt, 1int, 0int,
{
    match stmt {
        crate::ast::Statement::Return(_) => true,
        crate::ast::Statement::If { cond: _, then, els: Option::Some(e) } => {
            if stmt_ends_with_return(then) {
                stmt_ends_with_return(e)
            } else {
                false
            }
        },
        crate::ast::Statement::Compound(items) => items_end_with_return(items, items.len()),
        _ => false,
    }
}

fn items_end_with_return(items: &Vec<BlockItem>, i: usize) -> (r: bool)
    requires
        i <= items@.len(),
    ensures
        r == s_ewr_items(*items, i as int - 1),
    decreases *items, 2int, i,
{
    if i == 0 {
        false
    } else {
        match &items[i - 1] {
            BlockItem::Stmt(_) => ends_with_return(&items[i - 1]),
            BlockItem::Decl(_) => items_end_with_return(items, i - 1),
        }
    }
}

/// Whether two parameter names coincide.
pub open spec fn sdup(params: Vec<String>) -> bool {
    exists|a: int, b: int| 0 <= a < b < params@.len() && params[a]@ == params[b]@
}

fn has_duplicate(params: &Vec<String>) -> (r: bool)
    ensures
        r == sdup(*params),
{
    let mut i: usize = 1;
    while i < params.len()
        invariant
            1 <= i,
            i <= params@.len() || params@.len() < 1,
            forall|a: int, b: int| 0 <= a < b < i && b < params@.len() ==> params@[a]@
                != params@[b]@,
        decreases params@.len() - i,
    {
        let mut k: usize = 0;
        while k < i
            invariant
                k <= i,
                i < params@.len(),
                forall|a: int| 0 <= a < k ==> params@[a]@ != params@[i as int]@,
            decreases i - k,
        {
            if str_eq(params[k].as_str(), params[i].as_str()) {
                proof {
                    assert(params[k as int]@ == params[i as int]@);
                }
                return true;
            }
            k += 1;
        }
        i += 1;
    }
    proof {
        assert(!sdup(*params));
    }
    false
}

/// The result of binding a function's parameters: the move instructions and
/// the allocator state afterwards.
#[verifier::ext_equal]
pub struct POut {
    pub ins: Seq<InstrV>,
    pub m: AllocModel,
}

/// The instruction that moves incoming argument register `w<i>` into a
/// parameter's location.
pub open spec fn sparam_move(v: Variable, i: int) -> InstrV {
    match v {
        Variable::Register(r) => InstrV::Op(Op::MovWW(r, i as u8)),
        Variable::Stack(off) => InstrV::Op(Op::StrWFp(i as u8, off)),
        // The allocator never binds a global location; this arm is inert.
        Variable::Global(_) => InstrV::Op(Op::MovWW(0, 0)),
    }
}

/// Exact lowering of parameter binding from position `i` on: each parameter
/// is allocated like a local and its argument register moved in; more than
/// eight parameters are not supported.
pub open spec fn sgen_params(params: Vec<String>, i: int, m: AllocModel) -> Result<
    POut,
    CodegenError,
>
    decreases params@.len() - i,
{
    if i < 0 || i >= params@.len() {
        Ok(POut { ins: Seq::empty(), m })
    } else if i >= 8 {
        Err(CodegenError::TooManyParameters)
    } else {
        let a = spec_allocate(m, params[i]@, 4);
        match sgen_params(params, i + 1, a.0) {
            Ok(rest) => Ok(POut { ins: seq![sparam_move(a.1, i)] + rest.ins, m: rest.m }),
            Err(er) => Err(er),
        }
    }
}

/// The fixed prologue: symbol directives, frame establishment, all five
/// callee-saved register pairs, and the statically sized frame reservation.
/// The frame pointer is established before the five pairs are pushed, so
/// the spilled slots' frame-pointer offsets begin inside the region those
/// pushes occupy.
pub open spec fn sprologue(name: Seq<char>, ssz: u64) -> Seq<InstrV> {
    seq![
        InstrV::Sym(SymKind::Export, name),
        InstrV::Sym(SymKind::Entry, name),
        InstrV::Op(Op::StpFpLr),
        InstrV::Op(Op::MovFpSp),
        InstrV::Op(Op::StpPair(19)),
        InstrV::Op(Op::StpPair(21)),
        InstrV::Op(Op::StpPair(23)),
        InstrV::Op(Op::StpPair(25)),
        InstrV::Op(Op::StpPair(27)),
    ] + if ssz > 0 {
        seq![InstrV::Op(Op::SubSpImm(ssz))]
    } else {
        Seq::empty()
    }
}

/// The single shared epilogue: frame release and the exact mirror image of
/// the prologue's register saves, in reverse order.
pub open spec fn sepilogue(ep: Lbl, ssz: u64) -> Seq<InstrV> {
    seq![InstrV::Op(Op::LabelDef(ep))] + (if ssz > 0 {
        seq![InstrV::Op(Op::AddSpImm(ssz))]
    } else {
        Seq::empty()
    }) + seq![
        InstrV::Op(Op::LdpPair(27)),
        InstrV::Op(Op::LdpPair(25)),
        InstrV::Op(Op::LdpPair(23)),
        InstrV::Op(Op::LdpPair(21)),
        InstrV::Op(Op::LdpPair(19)),
        InstrV::Op(Op::LdpFpLr),
        InstrV::Op(Op::Ret),
    ]
}

/// The peak stack demand of one function: a throwaway allocator over the
/// full register pool binds the parameters exactly as the real pass will,
/// then dry-runs the body; the largest total observed is the demand.
pub open spec fn sframe_peak(params: Vec<String>, items: Vec<BlockItem>) -> i32 {
    let p = ssim_params(params, 0, pool_model(), 0);
    ssim_block(items, p.0, p.1)
}

/// Exact lowering of one function definition: the frame is sized by the
/// stack-usage simulation over a throwaway allocator that binds the
/// parameters first, exactly as the real pass does; parameters are bound,
/// the body is lowered, an implicit `return 0` is appended when no return
/// is guaranteed, and the single epilogue closes the frame.
pub open spec fn sgen_function(f: Function, lc: usize) -> Result<EOut, CodegenError> {
    match f.block_items {
        Option::None => Err(CodegenError::MissingFunctionBody),
        Option::Some(items) => {
            let mx = sframe_peak(f.params, items);
            let ssz = spec_round16(mx);
            let ep = Lbl { kind: LabelKind::FuncEpilogue, num: sat_inc(lc) };
            let saw = s_ewr_items(items, items@.len() - 1);
            match sgen_params(f.params, 0, pool_model()) {
                Err(er) => Err(er),
                Ok(pr) => {
                    if sdup(f.params) {
                        Err(CodegenError::DuplicateParameter)
                    } else {
                        let ctx0 = LoopCtx {
                            break_label: Option::None,
                            continue_label: Option::None,
                        };
                        match sgen_block(
                            items,
                            ctx0,
                            ep,
                            pr.m,
                            sat_inc(lc),
                            names_of(f.params@),
                        ) {
                            Err(er) => Err(er),
                            Ok(b) => Ok(
                                EOut {
                                    ins: sprologue(f.name@, ssz) + pr.ins + b.ins + (if saw {
                                        Seq::empty()
                                    } else {
                                        seq![InstrV::Op(Op::MovW0Imm(0))]
                                    }) + sepilogue(ep, ssz),
                                    lc: b.lc,
                                },
                            ),
                        }
                    }
                },
            }
        },
    }
}

/// Generates the instructions of one function definition.
#[verifier::rlimit(100)]
pub fn generate_function_instrs(function: &Function, labels: &mut LabelGenerator) -> (r: Result<
    Vec<Instr>,
    CodegenError,
>)
    ensures
        ({
            let s = sgen_function(*function, old(labels)@);
            &&& (r is Ok <==> s is Ok)
            &&& (s matches Ok(o) ==> iviews(r->Ok_0@) == o.ins && final(labels)@ == o.lc)
            &&& (s matches Err(er) ==> r == Result::<Vec<Instr>, CodegenError>::Err(er))
        }),
{
    let items = match &function.block_items {
        Option::None => {
            return Err(CodegenError::MissingFunctionBody);
        },
        Option::Some(items) => items,
    };
    let ghost lc0 = labels@;
    let ghost sp = sgen_function(*function, lc0);

    let pool = pool_registers();
    let mut dry = Allocator::new(pool.as_slice());
    proof {
        assert(dry@ =~~= pool_model());
    }
    let mut max_stack: i32 = 0;
    let mut j: usize = 0;
    while j < function.params.len()
        invariant
            j <= function.params@.len(),
            alloc_wf(dry@),
            ssim_params(function.params, 0, pool_model(), 0) == ssim_params(
                function.params,
                j as int,
                dry@,
                max_stack,
            ),
        decreases function.params@.len() - j,
    {
        let _ = dry.allocate(function.params[j].clone(), 4);
        let t = dry.total_stack_size();
        if t > max_stack {
            max_stack = t;
        }
        j += 1;
    }
    proof {
        assert((dry@, max_stack) == ssim_params(function.params, 0, pool_model(), 0));
    }
    simulate_stack_usage(items, &mut dry, &mut max_stack);
    let stack_size: u64 = if max_stack < 0 {
        0
    } else {
        ((max_stack as u64) + 15) / 16 * 16
    };
    proof {
        assert(stack_size == spec_round16(sframe_peak(function.params, *items)));
    }

    let ep = labels.fresh(LabelKind::FuncEpilogue);
    let saw_return = items_end_with_return(items, items.len());

    let mut out: Vec<Instr> = Vec::new();
    out.push(Instr::Sym(SymKind::Export, function.name.clone()));
    out.push(Instr::Sym(SymKind::Entry, function.name.clone()));
    out.push(Instr::Op(Op::StpFpLr));
    out.push(Instr::Op(Op::MovFpSp));
    out.push(Instr::Op(Op::StpPair(19)));
    out.push(Instr::Op(Op::StpPair(21)));
    out.push(Instr::Op(Op::StpPair(23)));
    out.push(Instr::Op(Op::StpPair(25)));
    out.push(Instr::Op(Op::StpPair(27)));
    if stack_size > 0 {
        out.push(Instr::Op(Op::SubSpImm(stack_size)));
    }
    proof {
        assert(iviews(out@) =~= sprologue(function.name@, stack_size));
    }

    let real_pool = pool_registers();
    let mut g = Gen {
        out,
        labels: *labels,
        allocator: Allocator::new(real_pool.as_slice()),
        epilogue: ep,
    };
    proof {
        assert(g.allocator@ =~~= pool_model());
    }

    let ghost out_prologue = g.out@;
    let mut i: usize = 0;
    while i < function.params.len()
        invariant
            i <= function.params@.len(),
            alloc_wf(g.allocator@),
            lc0 == old(labels)@,
            function.block_items == Option::Some(*items),
            g.labels@ == sat_inc(lc0),
            g.epilogue == ep,
            iviews(out_prologue) == sprologue(function.name@, stack_size),
            sgen_params(function.params, 0, pool_model()) matches Ok(o) ==> {
                &&& sgen_params(function.params, i as int, g.allocator@) matches Ok(o2)
                &&& iviews(g.out@) + o2.ins == iviews(out_prologue) + o.ins
                &&& o2.m == o.m
            },
            sgen_params(function.params, 0, pool_model()) matches Err(er0) ==> sgen_params(
                function.params,
                i as int,
                g.allocator@,
            ) == Result::<POut, CodegenError>::Err(er0),
        decreases function.params@.len() - i,
    {
        let ghost m_here = g.allocator@;
        if i >= 8 {
            proof {
                assert(sgen_params(function.params, i as int, m_here) == Result::<
                    POut,
                    CodegenError,
                >::Err(CodegenError::TooManyParameters));
                if sgen_params(function.params, 0, pool_model()) is Ok {
                    assert(false);
                }
                assert(sgen_params(function.params, 0, pool_model()) == Result::<
                    POut,
                    CodegenError,
                >::Err(CodegenError::TooManyParameters));
                assert(sgen_function(*function, lc0) == Result::<EOut, CodegenError>::Err(
                    CodegenError::TooManyParameters,
                ));
            }
            return Err(CodegenError::TooManyParameters);
        }
        let var = g.allocator.allocate(function.params[i].clone(), 4);
        match var {
            Variable::Register(r) => g.out.push(Instr::Op(Op::MovWW(r, i as u8))),
            Variable::Stack(off) => g.out.push(Instr::Op(Op::StrWFp(i as u8, off))),
            Variable::Global(_) => {
                proof {
                    assert(false);
                }
            },
        }
        proof {
            let a = spec_allocate(m_here, function.params@[i as int]@, 4);
            assert(iviews(g.out@) =~= iviews(g.out@));
            if sgen_params(function.params, 0, pool_model()) is Ok {
                let o2 = sgen_params(function.params, i + 1 as int, g.allocator@)->Ok_0;
                let prev = sgen_params(function.params, i as int, m_here)->Ok_0;
                assert(prev.ins =~= seq![sparam_move(a.1, i as int)] + o2.ins);
            }
        }
        i += 1;
    }
    proof {
        assert(sgen_params(function.params, function.params@.len() as int, g.allocator@)
            == Ok::<POut, CodegenError>(POut { ins: Seq::empty(), m: g.allocator@ }));
        if sgen_params(function.params, 0, pool_model()) is Ok {
            assert(iviews(g.out@) + Seq::<InstrV>::empty() =~= iviews(g.out@));
        }
    }

    if has_duplicate(&function.params) {
        return Err(CodegenError::DuplicateParameter);
    }

    let ctx0 = LoopCtx { break_label: Option::None, continue_label: Option::None };
    let ghost out_params = g.out@;
    match gen_block(&mut g, ctx0, items, Option::Some(&function.params)) {
        Err(er) => {
            return Err(er);
        },
        Ok(()) => (),
    }

    if !saw_return {
        g.out.push(Instr::Op(Op::MovW0Imm(0)));
    }

    let ghost out_body = g.out@;
    g.out.push(Instr::Op(Op::LabelDef(ep)));
    if stack_size > 0 {
        g.out.push(Instr::Op(Op::AddSpImm(stack_size)));
    }
    g.out.push(Instr::Op(Op::LdpPair(27)));
    g.out.push(Instr::Op(Op::LdpPair(25)));
    g.out.push(Instr::Op(Op::LdpPair(23)));
    g.out.push(Instr::Op(Op::LdpPair(21)));
    g.out.push(Instr::Op(Op::LdpPair(19)));
    g.out.push(Instr::Op(Op::LdpFpLr));
    g.out.push(Instr::Op(Op::Ret));
    proof {
        assert(iviews(g.out@) =~= iviews(out_body) + sepilogue(ep, stack_size));
        assert(iviews(g.out@) =~= sp->Ok_0.ins);
    }
    *labels = g.labels;
    Ok(g.out)
}


/// The function-symbol prefix of each supported platform: a leading
/// underscore on macOS, none on Linux.
pub open spec fn spec_prefix(platform: Seq<char>) -> Option<Seq<char>> {
    if platform == "macos"@ {
        Option::Some("_"@)
    } else if platform == "linux"@ {
        Option::Some(""@)
    } else {
        Option::None
    }
}

/// Returns the symbol prefix used when generating labels for functions on
/// the given platform.
fn function_label_prefix(platform: &str) -> (r: Result<&'static str, CodegenError>)
    ensures
        ({
            let p = spec_prefix(platform@);
            &&& (r is Ok <==> p is Some)
            &&& (p matches Some(pre) ==> r matches Ok(rp) && rp@ == pre)
            &&& (p is None ==> r == Result::<&'static str, CodegenError>::Err(
                CodegenError::UnsupportedPlatform,
            ))
        }),
{
    if str_eq(platform, "macos") {
        Ok("_")
    } else if str_eq(platform, "linux") {
        Ok("")
    } else {
        Err(CodegenError::UnsupportedPlatform)
    }
}

/// The exact text of one function definition on a platform: its lowered
/// instructions rendered under the platform's symbol prefix.
pub open spec fn sgen_function_text(f: Function, platform: Seq<char>, lc: usize) -> Result<
    (Seq<char>, usize),
    CodegenError,
> {
    if f.block_items is None {
        Err(CodegenError::MissingFunctionBody)
    } else {
        match spec_prefix(platform) {
            Option::None => Err(CodegenError::UnsupportedPlatform),
            Option::Some(pre) => match sgen_function(f, lc) {
                Ok(o) => Ok((spec_render_all(pre, o.ins), o.lc)),
                Err(er) => Err(er),
            },
        }
    }
}

/// Generates the assembly text of one function definition.
pub fn generate_function(function: &Function, labels: &mut LabelGenerator, platform: &str) -> (r:
    Result<String, CodegenError>)
    ensures
        ({
            let s = sgen_function_text(*function, platform@, old(labels)@);
            &&& (r is Ok <==> s is Ok)
            &&& (s matches Ok(t) ==> r matches Ok(txt) && txt@ == t.0 && final(labels)@ == t.1)
            &&& (s matches Err(er) ==> r == Result::<String, CodegenError>::Err(er))
        }),
{
    if function.block_items.is_none() {
        return Err(CodegenError::MissingFunctionBody);
    }
    let prefix = match function_label_prefix(platform) {
        Ok(p) => p,
        Err(er) => {
            return Err(er);
        },
    };
    match generate_function_instrs(function, labels) {
        Ok(instrs) => Ok(render_instrs(prefix, &instrs)),
        Err(er) => Err(er),
    }
}

/// The raw text of the debug-print runtime helper for macOS: a routine
/// under the symbol `bingus` that prints the integer in `w0` and preserves
/// the caller's frame.
pub open spec fn helper_text() -> Seq<char> {
    ".data\nbingus_fmt: .asciz \"%d\\n\"\n.text\n.global bingus\n.p2align 2\nbingus:\n\tstp\tx29, x30, [sp, #-16]!\n\tmov\tx29, sp\n\tsub\tsp, sp, #16\n\tstr\tw0, [sp]\n\tadrp\tx0, bingus_fmt@PAGE\n\tadd\tx0, x0, bingus_fmt@PAGEOFF\n\tldrsw\tx8, [sp]\n\tstr\tx8, [sp]\n\tbl\t_printf\n\tadd\tsp, sp, #16\n\tldp\tx29, x30, [sp], #16\n\tret\n\n"@
}

fn bingus_helper_text() -> (r: &'static str)
    ensures
        r@ == helper_text(),
{
    ".data\nbingus_fmt: .asciz \"%d\\n\"\n.text\n.global bingus\n.p2align 2\nbingus:\n\tstp\tx29, x30, [sp, #-16]!\n\tmov\tx29, sp\n\tsub\tsp, sp, #16\n\tstr\tw0, [sp]\n\tadrp\tx0, bingus_fmt@PAGE\n\tadd\tx0, x0, bingus_fmt@PAGEOFF\n\tldrsw\tx8, [sp]\n\tstr\tx8, [sp]\n\tbl\t_printf\n\tadd\tsp, sp, #16\n\tldp\tx29, x30, [sp], #16\n\tret\n\n"
}

/// The exact text of all function definitions from position `i` on, each
/// followed by one blank line. Declarations without a body and global
/// variables produce no text. On a platform without a prefix, the first
/// function definition reached is the error point.
pub open spec fn sgen_toplevel_text(
    items: Vec<TopLevel>,
    i: int,
    pre: Seq<char>,
    platform_ok: bool,
    lc: usize,
) -> Result<(Seq<char>, usize), CodegenError>
    decreases items@.len() - i,
{
    if i < 0 || i >= items@.len() {
        Ok((Seq::empty(), lc))
    } else {
        match items[i] {
            TopLevel::Function(f) => {
                if f.block_items is Some {
                    if !platform_ok {
                        Err(CodegenError::UnsupportedPlatform)
                    } else {
                        match sgen_function(f, lc) {
                            Ok(o) => match sgen_toplevel_text(items, i + 1, pre, platform_ok, o.lc) {
                                Ok(t) => Ok(
                                    (spec_render_all(pre, o.ins) + "\n"@ + t.0, t.1),
                                ),
                                Err(er) => Err(er),
                            },
                            Err(er) => Err(er),
                        }
                    }
                } else {
                    sgen_toplevel_text(items, i + 1, pre, platform_ok, lc)
                }
            },
            TopLevel::GlobalVariable(_) => sgen_toplevel_text(items, i + 1, pre, platform_ok, lc),
        }
    }
}

/// The exact assembly text of a whole program on a platform: the runtime
/// helper when the debug-print intrinsic occurs anywhere (supported only on
/// macOS), then every function definition in program order.
pub open spec fn spec_generate(p: Program, platform: Seq<char>) -> Result<Seq<char>, CodegenError> {
    let used = sbingus_program(p);
    if used && platform != "macos"@ {
        Err(CodegenError::BingusUnsupportedOnPlatform)
    } else {
        let pre_opt = spec_prefix(platform);
        let pre = match pre_opt {
            Option::Some(q) => q,
            Option::None => ""@,
        };
        match sgen_toplevel_text(p.toplevel_items, 0, pre, pre_opt is Some, 0) {
            Ok(t) => Ok(
                (if used {
                    helper_text()
                } else {
                    Seq::empty()
                }) + t.0,
            ),
            Err(er) => Err(er),
        }
    }
}

/// Generates the assembly text of a whole program.
#[verifier::rlimit(60)]
pub fn generate(program: &Program, platform: &str) -> (r: Result<String, CodegenError>)
    ensures
        ({
            let s = spec_generate(*program, platform@);
            &&& (r is Ok <==> s is Ok)
            &&& (s matches Ok(txt) ==> r matches Ok(out) && out@ == txt)
            &&& (s matches Err(er) ==> r == Result::<String, CodegenError>::Err(er))
        }),
{
    let used = bingus_used_in_program(program);
    if used && !str_eq(platform, "macos") {
        return Err(CodegenError::BingusUnsupportedOnPlatform);
    }
    let mut output = String::new();
    if used {
        output.append(bingus_helper_text());
    }
    let ghost header = output@;
    let (prefix, platform_ok): (&'static str, bool) = match function_label_prefix(platform) {
        Ok(p) => (p, true),
        Err(_) => ("", false),
    };
    let ghost pre: Seq<char> = match spec_prefix(platform@) {
        Option::Some(q) => q,
        Option::None => ""@,
    };
    proof {
        reveal_strlit("");
        assert(prefix@ == pre);
    }

    let mut labels = LabelGenerator::new();
    let items = &program.toplevel_items;
    let mut i: usize = 0;
    while i < items.len()
        invariant
            i <= items@.len(),
            *items == program.toplevel_items,
            used == sbingus_program(*program),
            !(used && platform@ != "macos"@),
            header == (if used { helper_text() } else { Seq::<char>::empty() }),
            prefix@ == pre,
            pre == (match spec_prefix(platform@) {
                Option::Some(q) => q,
                Option::None => ""@,
            }),
            platform_ok == (spec_prefix(platform@) is Some),
            sgen_toplevel_text(*items, 0, pre, platform_ok, 0) matches Ok(t) ==> {
                &&& sgen_toplevel_text(*items, i as int, pre, platform_ok, labels@) matches Ok(t2)
                &&& output@ + t2.0 == header + t.0
                &&& t2.1 == t.1
            },
            sgen_toplevel_text(*items, 0, pre, platform_ok, 0) matches Err(er0)
                ==> sgen_toplevel_text(*items, i as int, pre, platform_ok, labels@) == Result::<
                (Seq<char>, usize),
                CodegenError,
            >::Err(er0),
        decreases items@.len() - i,
    {
        let ghost lc_here = labels@;
        let ghost out_here = output@;
        match &items[i] {
            TopLevel::Function(f) => {
                if f.block_items.is_some() {
                    if !platform_ok {
                        proof {
                            assert(sgen_toplevel_text(*items, i as int, pre, platform_ok, lc_here)
                                == Result::<(Seq<char>, usize), CodegenError>::Err(
                                CodegenError::UnsupportedPlatform,
                            ));
                            if sgen_toplevel_text(*items, 0, pre, platform_ok, 0) is Ok {
                                assert(false);
                            }
                        }
                        return Err(CodegenError::UnsupportedPlatform);
                    }
                    match generate_function_instrs(f, &mut labels) {
                        Err(er) => {
                            proof {
                                assert(sgen_toplevel_text(
                                    *items,
                                    i as int,
                                    pre,
                                    platform_ok,
                                    lc_here,
                                ) == Result::<(Seq<char>, usize), CodegenError>::Err(er));
                                if sgen_toplevel_text(*items, 0, pre, platform_ok, 0) is Ok {
                                    assert(false);
                                }
                            }
                            return Err(er);
                        },
                        Ok(instrs) => {
                            let txt = render_instrs(prefix, &instrs);
                            output.append(txt.as_str());
                            output.append("\n");
                            proof {
                                reveal_strlit("\n");
                                let o = sgen_function(*f, lc_here)->Ok_0;
                                assert(output@ =~= out_here + (spec_render_all(pre, o.ins)
                                    + "\n"@));
                                if sgen_toplevel_text(*items, 0, pre, platform_ok, 0) is Ok {
                                    let t2 = sgen_toplevel_text(
                                        *items,
                                        i + 1 as int,
                                        pre,
                                        platform_ok,
                                        labels@,
                                    )->Ok_0;
                                    assert((out_here + (spec_render_all(pre, o.ins) + "\n"@))
                                        + t2.0 =~= out_here + ((spec_render_all(pre, o.ins)
                                        + "\n"@) + t2.0));
                                }
                            }
                        },
                    }
                }
            },
            TopLevel::GlobalVariable(_) => (),
        }
        i += 1;
    }
    proof {
        if sgen_toplevel_text(*items, 0, pre, platform_ok, 0) is Ok {
            assert(output@ + Seq::<char>::empty() =~= output@);
        }
    }
    Ok(output)
}

} // verus!
