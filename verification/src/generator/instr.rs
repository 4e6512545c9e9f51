//! The generated instructions, as structured values, and their exact
//! rendering to assembly text. Code generation produces `Vec<Instr>`; the
//! renderer turns that into the final output, one line per instruction.

use crate::generator::label::{Lbl, push_lbl, spec_lbl_text};
use crate::text::{push_i32_plus, push_i32_signed, push_u64, spec_dec, spec_dec_plus, spec_dec_signed};
use vstd::prelude::*;
use vstd::string::StringExecFns;

verus! {

/// Condition code of a conditional-set instruction.
#[derive(Debug, Clone, Copy, PartialEq, Eq, Structural)]
pub enum CondCode {
    Eq,
    Ne,
    Lt,
    Le,
    Gt,
    Ge,
}

/// One assembly line that mentions no function symbol. Register operands are
/// carried by number: `MovWW(d, s)` renders as `mov\tw<d>, w<s>`.
#[derive(Debug, Clone, Copy, PartialEq, Eq, Structural)]
pub enum Op {
    /// `mov w0, #imm`
    MovW0Imm(i32),
    /// `mov w<dst>, w<src>`
    MovWW(u8, u8),
    /// `ldr w0, [x29, #off]`
    LdrW0Fp(i32),
    /// `str w<src>, [x29, #off]`
    StrWFp(u8, i32),
    /// `neg w0, w0`
    NegW0,
    /// `mvn w0, w0`
    MvnW0,
    /// `cmp w0, #0`
    CmpW0Zero,
    /// `cmp w11, w0`
    CmpW11W0,
    /// `cset w0, <cc>`
    CsetW0(CondCode),
    /// `str w0, [sp, #-16]!`
    PushW0,
    /// `ldr w11, [sp], #16`
    PopW11,
    /// `add w0, w11, w0`
    AddW0,
    /// `sub w0, w11, w0`
    SubW0,
    /// `mul w0, w11, w0`
    MulW0,
    /// `sdiv w0, w11, w0`
    SdivW0,
    /// `and w0, w11, w0`
    AndW0,
    /// `orr w0, w11, w0`
    OrrW0,
    /// `eor w0, w11, w0`
    EorW0,
    /// `lsl w0, w11, w0`
    LslW0,
    /// `lsr w0, w11, w0`
    LsrW0,
    /// `udiv w12, w11, w0`
    UdivW12,
    /// `msub w0, w12, w0, w11`
    MsubW0,
    /// `<label>:`
    LabelDef(Lbl),
    /// `b <label>`
    B(Lbl),
    /// `beq <label>`
    Beq(Lbl),
    /// `b.eq <label>`
    BDotEq(Lbl),
    /// `b.ne <label>`
    BDotNe(Lbl),
    /// `bl bingus` — call of the debug-print runtime helper
    BlBingus,
    /// `mov x9, sp`
    MovX9Sp,
    /// `sub x9, x9, #imm`
    SubX9Imm(u64),
    /// `and x10, x9, #15`
    AndX10X9,
    /// `sub sp, sp, x10`
    SubSpX10,
    /// `str x10, [sp, #-16]!`
    PushX10,
    /// `add sp, sp, #imm`
    AddSpImm(u64),
    /// `ldr x9, [sp], #16`
    PopX9,
    /// `add sp, sp, x9`
    AddSpX9,
    /// `stp x29, x30, [sp, #-16]!`
    StpFpLr,
    /// `mov x29, sp`
    MovFpSp,
    /// `stp x<n>, x<n+1>, [sp, #-16]!`
    StpPair(u8),
    /// `ldp x<n>, x<n+1>, [sp], #16`
    LdpPair(u8),
    /// `sub sp, sp, #imm`
    SubSpImm(u64),
    /// `ldp x29, x30, [sp], #16`
    LdpFpLr,
    /// `ret`
    Ret,
}

/// How a function symbol is used in an instruction line.
#[derive(Debug, Clone, Copy, PartialEq, Eq, Structural)]
pub enum SymKind {
    /// `.global <sym>`
    Export,
    /// `<sym>:`
    Entry,
    /// `bl <sym>`
    Call,
}

/// One assembly line: either a line around a function symbol (which renders
/// with the platform's symbol prefix) or any other instruction.
#[derive(Debug, Clone, PartialEq)]
pub enum Instr {
    Sym(SymKind, String),
    Op(Op),
}

/// The abstract value of an instruction: symbol names by their characters.
pub enum InstrV {
    Sym(SymKind, Seq<char>),
    Op(Op),
}

impl View for Instr {
    type V = InstrV;

    open spec fn view(&self) -> InstrV {
        match self {
            Instr::Sym(k, s) => InstrV::Sym(*k, s@),
            Instr::Op(o) => InstrV::Op(*o),
        }
    }
}

/// The abstract values of a sequence of instructions.
pub open spec fn iviews(s: Seq<Instr>) -> Seq<InstrV> {
    s.map_values(|i: Instr| i@)
}

pub broadcast proof fn lemma_iviews_push(s: Seq<Instr>, x: Instr)
    ensures
        #[trigger] iviews(s.push(x)) == iviews(s).push(x@),
{
    assert(iviews(s.push(x)) =~= iviews(s).push(x@));
}

pub broadcast proof fn lemma_iviews_concat(a: Seq<Instr>, b: Seq<Instr>)
    ensures
        #[trigger] iviews(a + b) == iviews(a) + iviews(b),
{
    assert(iviews(a + b) =~= iviews(a) + iviews(b));
}

/// Decimal text of a w-register name.
pub open spec fn spec_reg_w(r: u8) -> Seq<char> {
    seq!['w'] + spec_dec(r as nat)
}

/// Decimal text of an x-register name.
pub open spec fn spec_reg_x(r: u8) -> Seq<char> {
    seq!['x'] + spec_dec(r as nat)
}

/// The second register of a pair: the next register number.
pub open spec fn spec_pair_second(n: u8) -> u8 {
    if n < 255 {
        (n + 1) as u8
    } else {
        0
    }
}

/// The text of the condition code.
pub open spec fn spec_cond(c: CondCode) -> Seq<char> {
    match c {
        CondCode::Eq => "eq"@,
        CondCode::Ne => "ne"@,
        CondCode::Lt => "lt"@,
        CondCode::Le => "le"@,
        CondCode::Gt => "gt"@,
        CondCode::Ge => "ge"@,
    }
}

/// The exact text of one symbol-free instruction line, newline included.
pub open spec fn spec_render_op(op: Op) -> Seq<char> {
    match op {
        Op::MovW0Imm(n) => "mov\tw0, #"@ + spec_dec_signed(n as int) + "\n"@,
        Op::MovWW(d, s) => "mov\t"@ + spec_reg_w(d) + ", "@ + spec_reg_w(s) + "\n"@,
        Op::LdrW0Fp(off) => "ldr\tw0, [x29, #"@ + spec_dec_plus(off as int) + "]\n"@,
        Op::StrWFp(r, off) => "str\t"@ + spec_reg_w(r) + ", [x29, #"@ + spec_dec_plus(off as int)
            + "]\n"@,
        Op::NegW0 => "neg\tw0, w0\n"@,
        Op::MvnW0 => "mvn\tw0, w0\n"@,
        Op::CmpW0Zero => "cmp\tw0, #0\n"@,
        Op::CmpW11W0 => "cmp\tw11, w0\n"@,
        Op::CsetW0(c) => "cset\tw0, "@ + spec_cond(c) + "\n"@,
        Op::PushW0 => "str\tw0, [sp, #-16]!\n"@,
        Op::PopW11 => "ldr\tw11, [sp], #16\n"@,
        Op::AddW0 => "add\tw0, w11, w0\n"@,
        Op::SubW0 => "sub\tw0, w11, w0\n"@,
        Op::MulW0 => "mul\tw0, w11, w0\n"@,
        Op::SdivW0 => "sdiv\tw0, w11, w0\n"@,
        Op::AndW0 => "and\tw0, w11, w0\n"@,
        Op::OrrW0 => "orr\tw0, w11, w0\n"@,
        Op::EorW0 => "eor\tw0, w11, w0\n"@,
        Op::LslW0 => "lsl\tw0, w11, w0\n"@,
        Op::LsrW0 => "lsr\tw0, w11, w0\n"@,
        Op::UdivW12 => "udiv\tw12, w11, w0\n"@,
        Op::MsubW0 => "msub\tw0, w12, w0, w11\n"@,
        Op::LabelDef(l) => spec_lbl_text(l) + ":\n"@,
        Op::B(l) => "b\t"@ + spec_lbl_text(l) + "\n"@,
        Op::Beq(l) => "beq\t"@ + spec_lbl_text(l) + "\n"@,
        Op::BDotEq(l) => "b.eq\t"@ + spec_lbl_text(l) + "\n"@,
        Op::BDotNe(l) => "b.ne\t"@ + spec_lbl_text(l) + "\n"@,
        Op::BlBingus => "bl\tbingus\n"@,
        Op::MovX9Sp => "mov\tx9, sp\n"@,
        Op::SubX9Imm(n) => "sub\tx9, x9, #"@ + spec_dec(n as nat) + "\n"@,
        Op::AndX10X9 => "and\tx10, x9, #15\n"@,
        Op::SubSpX10 => "sub\tsp, sp, x10\n"@,
        Op::PushX10 => "str\tx10, [sp, #-16]!\n"@,
        Op::AddSpImm(n) => "add\tsp, sp, #"@ + spec_dec(n as nat) + "\n"@,
        Op::PopX9 => "ldr\tx9, [sp], #16\n"@,
        Op::AddSpX9 => "add\tsp, sp, x9\n"@,
        Op::StpFpLr => "stp\tx29, x30, [sp, #-16]!\n"@,
        Op::MovFpSp => "mov\tx29, sp\n"@,
        Op::StpPair(n) => "stp\t"@ + spec_reg_x(n) + ", "@ + spec_reg_x(spec_pair_second(n)) + ", [sp, #-16]!\n"@,
        Op::LdpPair(n) => "ldp\t"@ + spec_reg_x(n) + ", "@ + spec_reg_x(spec_pair_second(n)) + ", [sp], #16\n"@,
        Op::SubSpImm(n) => "sub\tsp, sp, #"@ + spec_dec(n as nat) + "\n"@,
        Op::LdpFpLr => "ldp\tx29, x30, [sp], #16\n"@,
        Op::Ret => "ret\n"@,
    }
}

/// The exact text of one instruction line under the given symbol prefix.
pub open spec fn spec_render_instr(prefix: Seq<char>, i: InstrV) -> Seq<char> {
    match i {
        InstrV::Sym(SymKind::Export, name) => ".global "@ + prefix + name + "\n"@,
        InstrV::Sym(SymKind::Entry, name) => prefix + name + ":\n"@,
        InstrV::Sym(SymKind::Call, name) => "bl\t"@ + prefix + name + "\n"@,
        InstrV::Op(o) => spec_render_op(o),
    }
}

/// The exact text of a sequence of instruction lines.
pub open spec fn spec_render_all(prefix: Seq<char>, s: Seq<InstrV>) -> Seq<char>
    decreases s.len(),
{
    if s.len() == 0 {
        Seq::empty()
    } else {
        spec_render_all(prefix, s.drop_last()) + spec_render_instr(prefix, s.last())
    }
}

fn push_reg_w(out: &mut String, r: u8)
    ensures
        final(out)@ == old(out)@ + spec_reg_w(r),
{
    proof {
        reveal_strlit("w");
    }
    out.append("w");
    push_u64(out, r as u64);
    proof {
        assert(out@ =~= old(out)@ + spec_reg_w(r));
    }
}

fn push_reg_x(out: &mut String, r: u8)
    ensures
        final(out)@ == old(out)@ + spec_reg_x(r),
{
    proof {
        reveal_strlit("x");
    }
    out.append("x");
    push_u64(out, r as u64);
    proof {
        assert(out@ =~= old(out)@ + spec_reg_x(r));
    }
}

fn cond_str(c: CondCode) -> (r: &'static str)
    ensures
        r@ == spec_cond(c),
{
    match c {
        CondCode::Eq => "eq",
        CondCode::Ne => "ne",
        CondCode::Lt => "lt",
        CondCode::Le => "le",
        CondCode::Gt => "gt",
        CondCode::Ge => "ge",
    }
}

/// Appends the text of one symbol-free instruction to `out`.
pub fn push_op_text(out: &mut String, op: &Op)
    ensures
        final(out)@ == old(out)@ + spec_render_op(*op),
{
    match op {
        Op::MovW0Imm(n) => {
            out.append("mov\tw0, #");
            push_i32_signed(out, *n);
            out.append("\n");
        },
        Op::MovWW(d, s) => {
            out.append("mov\t");
            push_reg_w(out, *d);
            out.append(", ");
            push_reg_w(out, *s);
            out.append("\n");
        },
        Op::LdrW0Fp(off) => {
            out.append("ldr\tw0, [x29, #");
            push_i32_plus(out, *off);
            out.append("]\n");
        },
        Op::StrWFp(r, off) => {
            out.append("str\t");
            push_reg_w(out, *r);
            out.append(", [x29, #");
            push_i32_plus(out, *off);
            out.append("]\n");
        },
        Op::NegW0 => out.append("neg\tw0, w0\n"),
        Op::MvnW0 => out.append("mvn\tw0, w0\n"),
        Op::CmpW0Zero => out.append("cmp\tw0, #0\n"),
        Op::CmpW11W0 => out.append("cmp\tw11, w0\n"),
        Op::CsetW0(c) => {
            out.append("cset\tw0, ");
            out.append(cond_str(*c));
            out.append("\n");
        },
        Op::PushW0 => out.append("str\tw0, [sp, #-16]!\n"),
        Op::PopW11 => out.append("ldr\tw11, [sp], #16\n"),
        Op::AddW0 => out.append("add\tw0, w11, w0\n"),
        Op::SubW0 => out.append("sub\tw0, w11, w0\n"),
        Op::MulW0 => out.append("mul\tw0, w11, w0\n"),
        Op::SdivW0 => out.append("sdiv\tw0, w11, w0\n"),
        Op::AndW0 => out.append("and\tw0, w11, w0\n"),
        Op::OrrW0 => out.append("orr\tw0, w11, w0\n"),
        Op::EorW0 => out.append("eor\tw0, w11, w0\n"),
        Op::LslW0 => out.append("lsl\tw0, w11, w0\n"),
        Op::LsrW0 => out.append("lsr\tw0, w11, w0\n"),
        Op::UdivW12 => out.append("udiv\tw12, w11, w0\n"),
        Op::MsubW0 => out.append("msub\tw0, w12, w0, w11\n"),
        Op::LabelDef(l) => {
            push_lbl(out, l);
            out.append(":\n");
        },
        Op::B(l) => {
            out.append("b\t");
            push_lbl(out, l);
            out.append("\n");
        },
        Op::Beq(l) => {
            out.append("beq\t");
            push_lbl(out, l);
            out.append("\n");
        },
        Op::BDotEq(l) => {
            out.append("b.eq\t");
            push_lbl(out, l);
            out.append("\n");
        },
        Op::BDotNe(l) => {
            out.append("b.ne\t");
            push_lbl(out, l);
            out.append("\n");
        },
        Op::BlBingus => out.append("bl\tbingus\n"),
        Op::MovX9Sp => out.append("mov\tx9, sp\n"),
        Op::SubX9Imm(n) => {
            out.append("sub\tx9, x9, #");
            push_u64(out, *n);
            out.append("\n");
        },
        Op::AndX10X9 => out.append("and\tx10, x9, #15\n"),
        Op::SubSpX10 => out.append("sub\tsp, sp, x10\n"),
        Op::PushX10 => out.append("str\tx10, [sp, #-16]!\n"),
        Op::AddSpImm(n) => {
            out.append("add\tsp, sp, #");
            push_u64(out, *n);
            out.append("\n");
        },
        Op::PopX9 => out.append("ldr\tx9, [sp], #16\n"),
        Op::AddSpX9 => out.append("add\tsp, sp, x9\n"),
        Op::StpFpLr => out.append("stp\tx29, x30, [sp, #-16]!\n"),
        Op::MovFpSp => out.append("mov\tx29, sp\n"),
        Op::StpPair(n) => {
            out.append("stp\t");
            push_reg_x(out, *n);
            out.append(", ");
            push_reg_x(out, if *n < 255 { *n + 1 } else { 0 });
            out.append(", [sp, #-16]!\n");
        },
        Op::LdpPair(n) => {
            out.append("ldp\t");
            push_reg_x(out, *n);
            out.append(", ");
            push_reg_x(out, if *n < 255 { *n + 1 } else { 0 });
            out.append(", [sp], #16\n");
        },
        Op::SubSpImm(n) => {
            out.append("sub\tsp, sp, #");
            push_u64(out, *n);
            out.append("\n");
        },
        Op::LdpFpLr => out.append("ldp\tx29, x30, [sp], #16\n"),
        Op::Ret => out.append("ret\n"),
    }
    proof {
        assert(out@ =~= old(out)@ + spec_render_op(*op));
    }
}

/// Appends the text of one instruction line to `out`, using `prefix` for
/// function symbols.
pub fn push_instr_text(out: &mut String, prefix: &str, i: &Instr)
    ensures
        final(out)@ == old(out)@ + spec_render_instr(prefix@, i@),
{
    match i {
        Instr::Sym(SymKind::Export, name) => {
            out.append(".global ");
            out.append(prefix);
            out.append(name.as_str());
            out.append("\n");
        },
        Instr::Sym(SymKind::Entry, name) => {
            out.append(prefix);
            out.append(name.as_str());
            out.append(":\n");
        },
        Instr::Sym(SymKind::Call, name) => {
            out.append("bl\t");
            out.append(prefix);
            out.append(name.as_str());
            out.append("\n");
        },
        Instr::Op(op) => {
            push_op_text(out, op);
        },
    }
    proof {
        assert(out@ =~= old(out)@ + spec_render_instr(prefix@, i@));
    }
}

/// Renders a sequence of instruction lines to text under the given symbol
/// prefix.
pub fn render_instrs(prefix: &str, instrs: &Vec<Instr>) -> (r: String)
    ensures
        r@ == spec_render_all(prefix@, iviews(instrs@)),
{
    let mut out = String::new();
    let mut i: usize = 0;
    while i < instrs.len()
        invariant
            i <= instrs.len(),
            out@ == spec_render_all(prefix@, iviews(instrs@).subrange(0, i as int)),
        decreases instrs.len() - i,
    {
        let ghost pre = iviews(instrs@).subrange(0, i as int);
        push_instr_text(&mut out, prefix, &instrs[i]);
        proof {
            let post = iviews(instrs@).subrange(0, i + 1 as int);
            assert(post.drop_last() =~= pre);
            assert(post.last() == instrs@[i as int]@);
        }
        i += 1;
    }
    proof {
        assert(iviews(instrs@).subrange(0, instrs@.len() as int) =~= iviews(instrs@));
    }
    out
}

} // verus!

