//! Lowering of the syntax tree to ARM64 instructions. Every lowering
//! function is specified against a mathematical mirror (`sgen_*`) that
//! states the exact instruction sequence and label-counter evolution, so the
//! emitted code is pinned down completely.

use crate::ast::{BinaryOp, BlockItem, Declaration, Expr, Statement, UnaryOp};
use crate::generator::allocator::{
    alloc_wf, spec_allocate, spec_get, AllocModel, Allocator, Variable,
};
use crate::generator::instr::{iviews, CondCode, Instr, InstrV, Op, SymKind};
use crate::generator::label::{sat_inc, Lbl, LabelGenerator, LabelKind};
use vstd::prelude::*;

verus! {

broadcast use crate::generator::instr::lemma_iviews_push, crate::generator::instr::lemma_iviews_concat;

/// A typed code-generation failure. Generation aborts eagerly at the point
/// of occurrence; there is no partial output.
#[derive(Debug, Clone, Copy, PartialEq, Eq, Structural)]
pub enum CodegenError {
    /// A variable was read but is bound in no active scope.
    VariableNotFound,
    /// An assignment targets a name that is bound in no active scope.
    AssignToUndeclared,
    /// A name was declared twice within the same block.
    RedeclaredVariable,
    /// `break` appeared outside any loop.
    BreakOutsideLoop,
    /// `continue` appeared outside any loop.
    ContinueOutsideLoop,
    /// A parameter name appeared twice in one function definition.
    DuplicateParameter,
    /// A function definition has more than eight parameters.
    TooManyParameters,
    /// The target platform string is not supported.
    UnsupportedPlatform,
    /// The debug-print intrinsic was used on a platform without its runtime
    /// helper.
    BingusUnsupportedOnPlatform,
    /// Code generation was asked for a declaration without a body.
    MissingFunctionBody,
}

/// The enclosing-loop context: where `break` and `continue` branch to.
/// Valid only while lowering a loop body; `None` outside any loop.
#[derive(Debug, Clone, Copy, PartialEq, Eq, Structural)]
pub struct LoopCtx {
    pub break_label: Option<Lbl>,
    pub continue_label: Option<Lbl>,
}

/// The mutable state of one function's generation pass: the instructions
/// emitted so far, the label counter, the allocator, and the label of the
/// single shared epilogue.
pub struct Gen {
    pub out: Vec<Instr>,
    pub labels: LabelGenerator,
    pub allocator: Allocator,
    pub epilogue: Lbl,
}

/// Result of lowering an expression or statement: the instructions and the
/// label counter afterwards. Expressions and statements leave the allocator
/// as they found it.
#[verifier::ext_equal]
pub struct EOut {
    pub ins: Seq<InstrV>,
    pub lc: usize,
}

/// Result of lowering a declaration or a run of block items: instructions,
/// the allocator state afterwards, and the label counter afterwards.
#[verifier::ext_equal]
pub struct BOut {
    pub ins: Seq<InstrV>,
    pub m: AllocModel,
    pub lc: usize,
}

/// The instruction that loads a variable's value into `w0`.
pub open spec fn sload_w0(v: Variable) -> InstrV {
    match v {
        Variable::Register(r) => InstrV::Op(Op::MovWW(0, r)),
        Variable::Stack(off) => InstrV::Op(Op::LdrW0Fp(off)),
        // The allocator never binds a global location; this arm is inert.
        Variable::Global(_) => InstrV::Op(Op::MovWW(0, 0)),
    }
}

/// The instruction that stores `w0` into a variable's location.
pub open spec fn sstore_w0(v: Variable) -> InstrV {
    match v {
        Variable::Register(r) => InstrV::Op(Op::MovWW(r, 0)),
        Variable::Stack(off) => InstrV::Op(Op::StrWFp(0, off)),
        // The allocator never binds a global location; this arm is inert.
        Variable::Global(_) => InstrV::Op(Op::MovWW(0, 0)),
    }
}

/// The instructions of one non-short-circuit binary operator, applied to the
/// left operand in `w11` and the right operand in `w0`, leaving the result
/// in `w0`. The short-circuit operators never reach this point.
pub open spec fn sbinop(op: BinaryOp) -> Seq<InstrV> {
    match op {
        BinaryOp::Add => seq![InstrV::Op(Op::AddW0)],
        BinaryOp::Sub => seq![InstrV::Op(Op::SubW0)],
        BinaryOp::Multiply => seq![InstrV::Op(Op::MulW0)],
        BinaryOp::Divide => seq![InstrV::Op(Op::SdivW0)],
        BinaryOp::And => seq![InstrV::Op(Op::AndW0)],
        BinaryOp::Or => seq![InstrV::Op(Op::OrrW0)],
        BinaryOp::Xor => seq![InstrV::Op(Op::EorW0)],
        BinaryOp::ShiftLeft => seq![InstrV::Op(Op::LslW0)],
        BinaryOp::ShiftRight => seq![InstrV::Op(Op::LsrW0)],
        BinaryOp::Modulo => seq![InstrV::Op(Op::UdivW12), InstrV::Op(Op::MsubW0)],
        BinaryOp::Equal => seq![InstrV::Op(Op::CmpW11W0), InstrV::Op(Op::CsetW0(CondCode::Eq))],
        BinaryOp::NotEqual => seq![InstrV::Op(Op::CmpW11W0), InstrV::Op(Op::CsetW0(CondCode::Ne))],
        BinaryOp::Less => seq![InstrV::Op(Op::CmpW11W0), InstrV::Op(Op::CsetW0(CondCode::Lt))],
        BinaryOp::LessEqual => seq![InstrV::Op(Op::CmpW11W0), InstrV::Op(Op::CsetW0(CondCode::Le))],
        BinaryOp::Greater => seq![InstrV::Op(Op::CmpW11W0), InstrV::Op(Op::CsetW0(CondCode::Gt))],
        BinaryOp::GreaterEqual => seq![
            InstrV::Op(Op::CmpW11W0),
            InstrV::Op(Op::CsetW0(CondCode::Ge)),
        ],
        // Short-circuit operators are lowered with labels, never here.
        BinaryOp::LogicalAnd => Seq::empty(),
        BinaryOp::LogicalOr => Seq::empty(),
    }
}

/// The stack bytes reserved for call arguments beyond the first eight: one
/// 16-byte aligned slot each, saturating at the largest representable size.
pub open spec fn spec_arg_bytes(n: nat) -> u64 {
    if n <= 8 {
        0
    } else if 16 * (n - 8) <= u64::MAX {
        (16 * (n - 8)) as u64
    } else {
        u64::MAX
    }
}

/// Exact lowering of an expression, leaving its value in `w0`. Takes the
/// allocator model (read-only: expressions declare nothing) and the label
/// counter; returns the instructions and the counter afterwards.
pub open spec fn sgen_expr(e: Expr, m: AllocModel, lc: usize) -> Result<EOut, CodegenError>
    decreases e, 2int, 0int,
{
    match e {
        Expr::Const(n) => Ok(EOut { ins: seq![InstrV::Op(Op::MovW0Imm(n))], lc }),
        Expr::Var(name) => match spec_get(m, name@) {
            Option::Some(v) => Ok(EOut { ins: seq![sload_w0(v)], lc }),
            Option::None => Err(CodegenError::VariableNotFound),
        },
        Expr::UnOp(op, inner) => match sgen_expr(*inner, m, lc) {
            Ok(r1) => {
                let tail = match op {
                    UnaryOp::Neg => seq![InstrV::Op(Op::NegW0)],
                    UnaryOp::BitNot => seq![InstrV::Op(Op::MvnW0)],
                    UnaryOp::Not => seq![
                        InstrV::Op(Op::CmpW0Zero),
                        InstrV::Op(Op::MovW0Imm(0)),
                        InstrV::Op(Op::CsetW0(CondCode::Eq)),
                    ],
                };
                Ok(EOut { ins: r1.ins + tail, lc: r1.lc })
            },
            Err(er) => Err(er),
        },
        Expr::BinOp(BinaryOp::LogicalOr, lhs, rhs) => {
            let true_l = Lbl { kind: LabelKind::OrTrue, num: sat_inc(lc) };
            let end_l = Lbl { kind: LabelKind::OrEnd, num: sat_inc(sat_inc(lc)) };
            match sgen_expr(*lhs, m, sat_inc(sat_inc(lc))) {
                Ok(r1) => match sgen_expr(*rhs, m, r1.lc) {
                    Ok(r2) => Ok(
                        EOut {
                            ins: r1.ins + seq![
                                InstrV::Op(Op::CmpW0Zero),
                                InstrV::Op(Op::BDotNe(true_l)),
                            ] + r2.ins + seq![
                                InstrV::Op(Op::CmpW0Zero),
                                InstrV::Op(Op::CsetW0(CondCode::Ne)),
                                InstrV::Op(Op::B(end_l)),
                                InstrV::Op(Op::LabelDef(true_l)),
                                InstrV::Op(Op::MovW0Imm(1)),
                                InstrV::Op(Op::LabelDef(end_l)),
                            ],
                            lc: r2.lc,
                        },
                    ),
                    Err(er) => Err(er),
                },
                Err(er) => Err(er),
            }
        },
        Expr::BinOp(BinaryOp::LogicalAnd, lhs, rhs) => {
            let false_l = Lbl { kind: LabelKind::AndFalse, num: sat_inc(lc) };
            let end_l = Lbl { kind: LabelKind::AndEnd, num: sat_inc(sat_inc(lc)) };
            match sgen_expr(*lhs, m, sat_inc(sat_inc(lc))) {
                Ok(r1) => match sgen_expr(*rhs, m, r1.lc) {
                    Ok(r2) => Ok(
                        EOut {
                            ins: r1.ins + seq![
                                InstrV::Op(Op::CmpW0Zero),
                                InstrV::Op(Op::BDotEq(false_l)),
                            ] + r2.ins + seq![
                                InstrV::Op(Op::CmpW0Zero),
                                InstrV::Op(Op::CsetW0(CondCode::Ne)),
                                InstrV::Op(Op::B(end_l)),
                                InstrV::Op(Op::LabelDef(false_l)),
                                InstrV::Op(Op::MovW0Imm(0)),
                                InstrV::Op(Op::LabelDef(end_l)),
                            ],
                            lc: r2.lc,
                        },
                    ),
                    Err(er) => Err(er),
                },
                Err(er) => Err(er),
            }
        },
        Expr::BinOp(op, lhs, rhs) => match sgen_expr(*lhs, m, lc) {
            Ok(r1) => match sgen_expr(*rhs, m, r1.lc) {
                Ok(r2) => Ok(
                    EOut {
                        ins: r1.ins + seq![InstrV::Op(Op::PushW0)] + r2.ins + seq![
                            InstrV::Op(Op::PopW11),
                        ] + sbinop(op),
                        lc: r2.lc,
                    },
                ),
                Err(er) => Err(er),
            },
            Err(er) => Err(er),
        },
        Expr::Assign(name, rhs) => match spec_get(m, name@) {
            Option::Some(v) => match sgen_expr(*rhs, m, lc) {
                Ok(r1) => Ok(EOut { ins: r1.ins + seq![sstore_w0(v)], lc: r1.lc }),
                Err(er) => Err(er),
            },
            Option::None => Err(CodegenError::AssignToUndeclared),
        },
        Expr::Conditional { cond, then, els } => {
            let else_l = Lbl { kind: LabelKind::Else, num: sat_inc(lc) };
            let post_l = Lbl { kind: LabelKind::PostConditional, num: sat_inc(sat_inc(lc)) };
            match sgen_expr(*cond, m, sat_inc(sat_inc(lc))) {
                Ok(r1) => match sgen_expr(*then, m, r1.lc) {
                    Ok(r2) => match sgen_expr(*els, m, r2.lc) {
                        Ok(r3) => Ok(
                            EOut {
                                ins: r1.ins + seq![
                                    InstrV::Op(Op::CmpW0Zero),
                                    InstrV::Op(Op::Beq(else_l)),
                                ] + r2.ins + seq![
                                    InstrV::Op(Op::B(post_l)),
                                    InstrV::Op(Op::LabelDef(else_l)),
                                ] + r3.ins + seq![InstrV::Op(Op::LabelDef(post_l))],
                                lc: r3.lc,
                            },
                        ),
                        Err(er) => Err(er),
                    },
                    Err(er) => Err(er),
                },
                Err(er) => Err(er),
            }
        },
        Expr::FunCall { name, parameters } => sgen_call(name@, parameters, m, lc),
    }
}

/// Exact lowering of the arguments of a call, evaluated right to left. `j`
/// arguments remain; the argument at position `j - 1` is evaluated next.
/// The first eight argument positions move into their argument registers;
/// later positions are pushed, highest index first.
pub open spec fn sgen_args(args: Vec<Expr>, j: int, m: AllocModel, lc: usize) -> Result<
    EOut,
    CodegenError,
>
    decreases args, 1int, j,
{
    if j <= 0 || j > args@.len() {
        Ok(EOut { ins: Seq::empty(), lc })
    } else {
        match sgen_expr(args[j - 1], m, lc) {
            Ok(r1) => {
                let place = if j - 1 < 8 {
                    InstrV::Op(Op::MovWW((j - 1) as u8, 0))
                } else {
                    InstrV::Op(Op::PushW0)
                };
                match sgen_args(args, j - 1, m, r1.lc) {
                    Ok(rest) => Ok(
                        EOut { ins: r1.ins + seq![place] + rest.ins, lc: rest.lc },
                    ),
                    Err(er) => Err(er),
                }
            },
            Err(er) => Err(er),
        }
    }
}

/// Exact lowering of a complete call: runtime 16-byte alignment of the
/// stack pointer, argument evaluation, the call, and the exact reversal of
/// the stack adjustment.
pub open spec fn sgen_call(name: Seq<char>, args: Vec<Expr>, m: AllocModel, lc: usize) -> Result<
    EOut,
    CodegenError,
>
    decreases args, 2int, 0int,
{
    let bytes = spec_arg_bytes(args@.len() as nat);
    match sgen_args(args, args@.len() as int, m, lc) {
        Ok(ra) => Ok(
            EOut {
                ins: seq![
                    InstrV::Op(Op::MovX9Sp),
                    InstrV::Op(Op::SubX9Imm(bytes)),
                    InstrV::Op(Op::AndX10X9),
                    InstrV::Op(Op::SubSpX10),
                    InstrV::Op(Op::PushX10),
                ] + ra.ins + seq![
                    InstrV::Sym(SymKind::Call, name),
                    InstrV::Op(Op::AddSpImm(bytes)),
                    InstrV::Op(Op::PopX9),
                    InstrV::Op(Op::AddSpX9),
                ],
                lc: ra.lc,
            },
        ),
        Err(er) => Err(er),
    }
}

/// The common shape of every expression- and statement-lowering call: the
/// allocator is left as it was, the epilogue label is untouched, and on
/// success the output grew by exactly the mirror's instructions while the
/// label counter moved to the mirror's value.
pub open spec fn gen_post(
    g0: Gen,
    g1: Gen,
    r: Result<(), CodegenError>,
    s: Result<EOut, CodegenError>,
) -> bool {
    &&& alloc_wf(g1.allocator@)
    &&& g1.epilogue == g0.epilogue
    &&& (r is Ok <==> s is Ok)
    &&& (s matches Ok(o) ==> g1.allocator@ == g0.allocator@ && iviews(g1.out@) == iviews(g0.out@)
        + o.ins && g1.labels@ == o.lc)
    &&& (s matches Err(er) ==> r == Result::<(), CodegenError>::Err(er))
}

/// The common shape of declaration- and block-item-lowering calls: like
/// [`gen_post`], except that the allocator moves to the mirror's state.
pub open spec fn bout_post(
    g0: Gen,
    g1: Gen,
    r: Result<(), CodegenError>,
    s: Result<BOut, CodegenError>,
) -> bool {
    &&& alloc_wf(g1.allocator@)
    &&& g1.epilogue == g0.epilogue
    &&& (r is Ok <==> s is Ok)
    &&& (s matches Ok(o) ==> g1.allocator@ == o.m && iviews(g1.out@) == iviews(g0.out@) + o.ins
        && g1.labels@ == o.lc)
    &&& (s matches Err(er) ==> r == Result::<(), CodegenError>::Err(er))
}

impl Variable {
    /// Appends the instruction that loads this location's value into `w0`.
    pub fn emit_store_in_w0(&self, out: &mut Vec<Instr>)
        requires
            !(self is Global),
        ensures
            iviews(final(out)@) == iviews(old(out)@).push(sload_w0(*self)),
    {
        match self {
            Variable::Register(r) => out.push(Instr::Op(Op::MovWW(0, *r))),
            Variable::Stack(off) => out.push(Instr::Op(Op::LdrW0Fp(*off))),
            Variable::Global(_) => out.push(Instr::Op(Op::MovWW(0, 0))),
        }
    }

    /// Appends the instruction that stores `w0` into this location.
    pub fn emit_store_from_w0(&self, out: &mut Vec<Instr>)
        requires
            !(self is Global),
        ensures
            iviews(final(out)@) == iviews(old(out)@).push(sstore_w0(*self)),
    {
        match self {
            Variable::Register(r) => out.push(Instr::Op(Op::MovWW(*r, 0))),
            Variable::Stack(off) => out.push(Instr::Op(Op::StrWFp(0, *off))),
            Variable::Global(_) => out.push(Instr::Op(Op::MovWW(0, 0))),
        }
    }
}

/// Emits one non-short-circuit binary operator, with the left operand in
/// `w11` and the right operand in `w0`.
fn emit_binop(g: &mut Gen, op: BinaryOp)
    requires
        !(op is LogicalAnd),
        !(op is LogicalOr),
    ensures
        iviews(final(g).out@) == iviews(old(g).out@) + sbinop(op),
        final(g).labels == old(g).labels,
        final(g).allocator == old(g).allocator,
        final(g).epilogue == old(g).epilogue,
{
    let ghost out0 = g.out@;
    match op {
        BinaryOp::Add => g.out.push(Instr::Op(Op::AddW0)),
        BinaryOp::Sub => g.out.push(Instr::Op(Op::SubW0)),
        BinaryOp::Multiply => g.out.push(Instr::Op(Op::MulW0)),
        BinaryOp::Divide => g.out.push(Instr::Op(Op::SdivW0)),
        BinaryOp::And => g.out.push(Instr::Op(Op::AndW0)),
        BinaryOp::Or => g.out.push(Instr::Op(Op::OrrW0)),
        BinaryOp::Xor => g.out.push(Instr::Op(Op::EorW0)),
        BinaryOp::ShiftLeft => g.out.push(Instr::Op(Op::LslW0)),
        BinaryOp::ShiftRight => g.out.push(Instr::Op(Op::LsrW0)),
        BinaryOp::Modulo => {
            g.out.push(Instr::Op(Op::UdivW12));
            g.out.push(Instr::Op(Op::MsubW0));
        },
        BinaryOp::Equal => {
            g.out.push(Instr::Op(Op::CmpW11W0));
            g.out.push(Instr::Op(Op::CsetW0(CondCode::Eq)));
        },
        BinaryOp::NotEqual => {
            g.out.push(Instr::Op(Op::CmpW11W0));
            g.out.push(Instr::Op(Op::CsetW0(CondCode::Ne)));
        },
        BinaryOp::Less => {
            g.out.push(Instr::Op(Op::CmpW11W0));
            g.out.push(Instr::Op(Op::CsetW0(CondCode::Lt)));
        },
        BinaryOp::LessEqual => {
            g.out.push(Instr::Op(Op::CmpW11W0));
            g.out.push(Instr::Op(Op::CsetW0(CondCode::Le)));
        },
        BinaryOp::Greater => {
            g.out.push(Instr::Op(Op::CmpW11W0));
            g.out.push(Instr::Op(Op::CsetW0(CondCode::Gt)));
        },
        BinaryOp::GreaterEqual => {
            g.out.push(Instr::Op(Op::CmpW11W0));
            g.out.push(Instr::Op(Op::CsetW0(CondCode::Ge)));
        },
        BinaryOp::LogicalAnd => (),
        BinaryOp::LogicalOr => (),
    }
    proof {
        assert(iviews(g.out@) =~= iviews(out0) + sbinop(op));
    }
}

/// Lowers one expression, leaving its value in `w0`.
#[verifier::rlimit(60)]
pub(crate) fn gen_expr(g: &mut Gen, e: &Expr) -> (r: Result<(), CodegenError>)
    requires
        alloc_wf(old(g).allocator@),
    ensures
        gen_post(*old(g), *final(g), r, sgen_expr(*e, old(g).allocator@, old(g).labels@)),
    decreases *e, 2int, 0int,
{
    let ghost m = g.allocator@;
    let ghost lc0 = g.labels@;
    let ghost out0 = g.out@;
    let ghost s = sgen_expr(*e, m, lc0);
    match e {
        Expr::Const(n) => {
            g.out.push(Instr::Op(Op::MovW0Imm(*n)));
            proof {
                assert(iviews(g.out@) =~= iviews(out0) + s->Ok_0.ins);
            }
            Ok(())
        },
        Expr::Var(name) => {
            match g.allocator.get(name.as_str()) {
                Option::Some(var) => {
                    proof {
                        crate::generator::allocator::lemma_get_not_global(m, name@);
                    }
                    var.emit_store_in_w0(&mut g.out);
                    proof {
                        assert(iviews(g.out@) =~= iviews(out0) + s->Ok_0.ins);
                    }
                    Ok(())
                },
                Option::None => Err(CodegenError::VariableNotFound),
            }
        },
        Expr::UnOp(op, inner) => {
            match gen_expr(g, inner) {
                Err(er) => Err(er),
                Ok(()) => {
                    match op {
                        UnaryOp::Neg => g.out.push(Instr::Op(Op::NegW0)),
                        UnaryOp::BitNot => g.out.push(Instr::Op(Op::MvnW0)),
                        UnaryOp::Not => {
                            g.out.push(Instr::Op(Op::CmpW0Zero));
                            g.out.push(Instr::Op(Op::MovW0Imm(0)));
                            g.out.push(Instr::Op(Op::CsetW0(CondCode::Eq)));
                        },
                    }
                    proof {
                        assert(iviews(g.out@) =~= iviews(out0) + s->Ok_0.ins);
                    }
                    Ok(())
                },
            }
        },
        Expr::BinOp(BinaryOp::LogicalOr, lhs, rhs) => {
            let true_l = g.labels.fresh(LabelKind::OrTrue);
            let end_l = g.labels.fresh(LabelKind::OrEnd);
            match gen_expr(g, lhs) {
                Err(er) => Err(er),
                Ok(()) => {
                    g.out.push(Instr::Op(Op::CmpW0Zero));
                    g.out.push(Instr::Op(Op::BDotNe(true_l)));
                    match gen_expr(g, rhs) {
                        Err(er) => Err(er),
                        Ok(()) => {
                            g.out.push(Instr::Op(Op::CmpW0Zero));
                            g.out.push(Instr::Op(Op::CsetW0(CondCode::Ne)));
                            g.out.push(Instr::Op(Op::B(end_l)));
                            g.out.push(Instr::Op(Op::LabelDef(true_l)));
                            g.out.push(Instr::Op(Op::MovW0Imm(1)));
                            g.out.push(Instr::Op(Op::LabelDef(end_l)));
                            proof {
                                assert(iviews(g.out@) =~= iviews(out0) + s->Ok_0.ins);
                            }
                            Ok(())
                        },
                    }
                },
            }
        },
        Expr::BinOp(BinaryOp::LogicalAnd, lhs, rhs) => {
            let false_l = g.labels.fresh(LabelKind::AndFalse);
            let end_l = g.labels.fresh(LabelKind::AndEnd);
            match gen_expr(g, lhs) {
                Err(er) => Err(er),
                Ok(()) => {
                    g.out.push(Instr::Op(Op::CmpW0Zero));
                    g.out.push(Instr::Op(Op::BDotEq(false_l)));
                    match gen_expr(g, rhs) {
                        Err(er) => Err(er),
                        Ok(()) => {
                            g.out.push(Instr::Op(Op::CmpW0Zero));
                            g.out.push(Instr::Op(Op::CsetW0(CondCode::Ne)));
                            g.out.push(Instr::Op(Op::B(end_l)));
                            g.out.push(Instr::Op(Op::LabelDef(false_l)));
                            g.out.push(Instr::Op(Op::MovW0Imm(0)));
                            g.out.push(Instr::Op(Op::LabelDef(end_l)));
                            proof {
                                assert(iviews(g.out@) =~= iviews(out0) + s->Ok_0.ins);
                            }
                            Ok(())
                        },
                    }
                },
            }
        },
        Expr::BinOp(op, lhs, rhs) => {
            // w0–w7 are reserved for argument passing; w11 is the scratch
            // register for the left operand.
            match gen_expr(g, lhs) {
                Err(er) => Err(er),
                Ok(()) => {
                    g.out.push(Instr::Op(Op::PushW0));
                    match gen_expr(g, rhs) {
                        Err(er) => Err(er),
                        Ok(()) => {
                            g.out.push(Instr::Op(Op::PopW11));
                            emit_binop(g, *op);
                            proof {
                                assert(iviews(g.out@) =~= iviews(out0) + s->Ok_0.ins);
                            }
                            Ok(())
                        },
                    }
                },
            }
        },
        Expr::Assign(name, rhs) => {
            match g.allocator.get(name.as_str()) {
                Option::None => Err(CodegenError::AssignToUndeclared),
                Option::Some(var) => {
                    proof {
                        crate::generator::allocator::lemma_get_not_global(m, name@);
                    }
                    match gen_expr(g, rhs) {
                        Err(er) => Err(er),
                        Ok(()) => {
                            var.emit_store_from_w0(&mut g.out);
                            proof {
                                assert(iviews(g.out@) =~= iviews(out0) + s->Ok_0.ins);
                            }
                            Ok(())
                        },
                    }
                },
            }
        },
        Expr::Conditional { cond, then, els } => {
            let else_l = g.labels.fresh(LabelKind::Else);
            let post_l = g.labels.fresh(LabelKind::PostConditional);
            match gen_expr(g, cond) {
                Err(er) => Err(er),
                Ok(()) => {
                    g.out.push(Instr::Op(Op::CmpW0Zero));
                    g.out.push(Instr::Op(Op::Beq(else_l)));
                    match gen_expr(g, then) {
                        Err(er) => Err(er),
                        Ok(()) => {
                            g.out.push(Instr::Op(Op::B(post_l)));
                            g.out.push(Instr::Op(Op::LabelDef(else_l)));
                            match gen_expr(g, els) {
                                Err(er) => Err(er),
                                Ok(()) => {
                                    g.out.push(Instr::Op(Op::LabelDef(post_l)));
                                    proof {
                                        assert(iviews(g.out@) =~= iviews(out0) + s->Ok_0.ins);
                                    }
                                    Ok(())
                                },
                            }
                        },
                    }
                },
            }
        },
        Expr::FunCall { name, parameters } => emit_fun_call(g, name, parameters),
    }
}

/// Emits a complete function call: stack alignment computed at runtime,
/// arguments evaluated right to left (registers for the first eight
/// positions, aligned stack slots beyond), the call, and the exact cleanup.
fn emit_fun_call(g: &mut Gen, name: &String, args: &Vec<Expr>) -> (r: Result<(), CodegenError>)
    requires
        alloc_wf(old(g).allocator@),
    ensures
        gen_post(*old(g), *final(g), r, sgen_call(name@, *args, old(g).allocator@, old(g).labels@)),
    decreases *args, 2int, 0int,
{
    let ghost m = g.allocator@;
    let ghost lc0 = g.labels@;
    let ghost out0 = g.out@;
    let ghost s = sgen_call(name@, *args, m, lc0);

    let n = args.len();
    let num_stack_args: u64 = if n > 8 {
        (n - 8) as u64
    } else {
        0
    };
    let arg_stack_size: u64 = match num_stack_args.checked_mul(16) {
        Option::Some(b) => b,
        Option::None => u64::MAX,
    };
    proof {
        assert(arg_stack_size == spec_arg_bytes(n as nat));
    }

    g.out.push(Instr::Op(Op::MovX9Sp));
    g.out.push(Instr::Op(Op::SubX9Imm(arg_stack_size)));
    g.out.push(Instr::Op(Op::AndX10X9));
    g.out.push(Instr::Op(Op::SubSpX10));
    g.out.push(Instr::Op(Op::PushX10));

    let ghost out_pre_args = g.out@;
    let mut j: usize = n;
    while j > 0
        invariant
            j <= n,
            n == args@.len(),
            alloc_wf(g.allocator@),
            g.allocator@ == m,
            m == old(g).allocator@,
            lc0 == old(g).labels@,
            g.epilogue == old(g).epilogue,
            sgen_args(*args, n as int, m, lc0) matches Ok(o) ==> {
                &&& sgen_args(*args, j as int, m, g.labels@) matches Ok(o2)
                &&& iviews(g.out@) + o2.ins == iviews(out_pre_args) + o.ins
                &&& o2.lc == o.lc
            },
            sgen_args(*args, n as int, m, lc0) matches Err(er) ==> sgen_args(
                *args,
                j as int,
                m,
                g.labels@,
            ) == Result::<EOut, CodegenError>::Err(er),
        decreases j,
    {
        let ghost lc_here = g.labels@;
        let ghost out_here = g.out@;
        match gen_expr(g, &args[j - 1]) {
            Err(er) => {
                proof {
                    assert(sgen_args(*args, j as int, m, lc_here) == Result::<
                        EOut,
                        CodegenError,
                    >::Err(er));
                    if sgen_args(*args, n as int, m, lc0) is Ok {
                        assert(sgen_args(*args, j as int, m, lc_here) is Ok);
                        assert(false);
                    }
                    assert(sgen_args(*args, j as int, m, lc_here) == sgen_args(
                        *args,
                        n as int,
                        m,
                        lc0,
                    ));
                    assert(sgen_call(name@, *args, m, lc0) == Result::<
                        EOut,
                        CodegenError,
                    >::Err(er));
                }
                return Err(er);
            },
            Ok(()) => (),
        }
        if j - 1 < 8 {
            g.out.push(Instr::Op(Op::MovWW((j - 1) as u8, 0)));
        } else {
            g.out.push(Instr::Op(Op::PushW0));
        }
        proof {
            let place = if j - 1 < 8 {
                InstrV::Op(Op::MovWW((j - 1) as u8, 0))
            } else {
                InstrV::Op(Op::PushW0)
            };
            let r1 = sgen_expr(args@[j - 1], m, lc_here)->Ok_0;
            assert(iviews(g.out@) =~= iviews(out_here) + (r1.ins + seq![place]));
            assert(iviews(out_here) + (r1.ins + seq![place]) =~= iviews(out_here) + r1.ins
                + seq![place]);
        }
        j = j - 1;
    }
    proof {
        assert(sgen_args(*args, 0int, m, g.labels@) == Ok::<EOut, CodegenError>(
            EOut { ins: Seq::empty(), lc: g.labels@ },
        ));
    }

    g.out.push(Instr::Sym(SymKind::Call, name.clone()));
    g.out.push(Instr::Op(Op::AddSpImm(arg_stack_size)));
    g.out.push(Instr::Op(Op::PopX9));
    g.out.push(Instr::Op(Op::AddSpX9));
    proof {
        let o = sgen_args(*args, n as int, m, lc0)->Ok_0;
        assert(iviews(g.out@) =~= iviews(out0) + s->Ok_0.ins);
    }
    Ok(())
}

} // verus!
