//! Label generation: one process-wide monotonic counter per program
//! generation run. Every label is a semantic prefix plus the counter value,
//! so labels are unique across functions as long as the counter does not
//! saturate.

use crate::text::{spec_dec, push_u64};
use vstd::prelude::*;
use vstd::string::StringExecFns;

verus! {

/// The semantic kinds of generated labels, each with its fixed textual
/// prefix.
#[derive(Debug, Clone, Copy, PartialEq, Eq, Structural)]
pub enum LabelKind {
    OrTrue,
    OrEnd,
    AndFalse,
    AndEnd,
    Else,
    PostConditional,
    WhileStart,
    WhileContinue,
    WhileEnd,
    DoStart,
    DoContinue,
    DoEnd,
    ForStart,
    ForContinue,
    ForEnd,
    ForDeclStart,
    ForDeclContinue,
    ForDeclEnd,
    FuncEpilogue,
}

/// A structured label: its kind and the counter value it was created with.
/// It renders as `<prefix>_<number>`.
#[derive(Debug, Clone, Copy, PartialEq, Eq, Structural)]
pub struct Lbl {
    pub kind: LabelKind,
    pub num: usize,
}

/// The textual prefix of each label kind.
pub open spec fn spec_kind_prefix(k: LabelKind) -> Seq<char> {
    match k {
        LabelKind::OrTrue => "or_true"@,
        LabelKind::OrEnd => "or_end"@,
        LabelKind::AndFalse => "and_false"@,
        LabelKind::AndEnd => "and_end"@,
        LabelKind::Else => "_else"@,
        LabelKind::PostConditional => "_post_conditional"@,
        LabelKind::WhileStart => "_while"@,
        LabelKind::WhileContinue => "_while_continue"@,
        LabelKind::WhileEnd => "_while_end"@,
        LabelKind::DoStart => "_do_while"@,
        LabelKind::DoContinue => "_do_while_continue"@,
        LabelKind::DoEnd => "_do_while_end"@,
        LabelKind::ForStart => "_for"@,
        LabelKind::ForContinue => "_for_continue"@,
        LabelKind::ForEnd => "_for_end"@,
        LabelKind::ForDeclStart => "_for_decl"@,
        LabelKind::ForDeclContinue => "_for_decl_continue"@,
        LabelKind::ForDeclEnd => "_for_decl_end"@,
        LabelKind::FuncEpilogue => "func_epilogue"@,
    }
}

/// The textual prefix of each label kind, as a string slice.
pub fn kind_prefix(k: LabelKind) -> (r: &'static str)
    ensures
        r@ == spec_kind_prefix(k),
{
    match k {
        LabelKind::OrTrue => "or_true",
        LabelKind::OrEnd => "or_end",
        LabelKind::AndFalse => "and_false",
        LabelKind::AndEnd => "and_end",
        LabelKind::Else => "_else",
        LabelKind::PostConditional => "_post_conditional",
        LabelKind::WhileStart => "_while",
        LabelKind::WhileContinue => "_while_continue",
        LabelKind::WhileEnd => "_while_end",
        LabelKind::DoStart => "_do_while",
        LabelKind::DoContinue => "_do_while_continue",
        LabelKind::DoEnd => "_do_while_end",
        LabelKind::ForStart => "_for",
        LabelKind::ForContinue => "_for_continue",
        LabelKind::ForEnd => "_for_end",
        LabelKind::ForDeclStart => "_for_decl",
        LabelKind::ForDeclContinue => "_for_decl_continue",
        LabelKind::ForDeclEnd => "_for_decl_end",
        LabelKind::FuncEpilogue => "func_epilogue",
    }
}

/// The text a structured label renders to.
pub open spec fn spec_lbl_text(l: Lbl) -> Seq<char> {
    spec_kind_prefix(l.kind) + seq!['_'] + spec_dec(l.num as nat)
}

/// The text of a label made from an arbitrary prefix and a counter value.
pub open spec fn spec_label_text(prefix: Seq<char>, n: usize) -> Seq<char> {
    prefix + seq!['_'] + spec_dec(n as nat)
}

/// The counter value after one more label: it increments, and sticks at the
/// largest representable value rather than wrapping.
pub open spec fn sat_inc(n: usize) -> usize {
    if n < usize::MAX {
        (n + 1) as usize
    } else {
        n
    }
}

/// Appends `<prefix>_<n>` to `out`.
pub fn push_label_text(out: &mut String, prefix: &str, n: usize)
    ensures
        final(out)@ == old(out)@ + spec_label_text(prefix@, n),
{
    proof {
        reveal_strlit("_");
    }
    out.append(prefix);
    out.append("_");
    push_u64(out, n as u64);
    proof {
        assert(out@ =~= old(out)@ + spec_label_text(prefix@, n));
    }
}

/// Appends the text of a structured label to `out`.
pub fn push_lbl(out: &mut String, l: &Lbl)
    ensures
        final(out)@ == old(out)@ + spec_lbl_text(*l),
{
    push_label_text(out, kind_prefix(l.kind), l.num);
}

/// The monotonic label counter.
#[derive(Clone, Copy)]
pub struct LabelGenerator {
    pos: usize,
}

impl View for LabelGenerator {
    type V = usize;

    closed spec fn view(&self) -> usize {
        self.pos
    }
}

impl LabelGenerator {
    /// A fresh counter, starting at zero.
    pub fn new() -> (r: LabelGenerator)
        ensures
            r@ == 0usize,
    {
        LabelGenerator { pos: 0 }
    }

    /// Takes the next counter value and returns the label text
    /// `<prefix>_<counter>`.
    pub fn next(&mut self, prefix: &str) -> (r: String)
        ensures
            final(self)@ == sat_inc(old(self)@),
            r@ == spec_label_text(prefix@, sat_inc(old(self)@)),
    {
        if self.pos < usize::MAX {
            self.pos = self.pos + 1;
        }
        let mut s = String::new();
        push_label_text(&mut s, prefix, self.pos);
        s
    }

    /// Takes the next counter value as a structured label of the given kind.
    pub fn fresh(&mut self, kind: LabelKind) -> (r: Lbl)
        ensures
            final(self)@ == sat_inc(old(self)@),
            r == (Lbl { kind, num: sat_inc(old(self)@) }),
    {
        if self.pos < usize::MAX {
            self.pos = self.pos + 1;
        }
        Lbl { kind, num: self.pos }
    }
}

} // verus!
