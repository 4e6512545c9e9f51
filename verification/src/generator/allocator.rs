//! The storage allocator: a scoped name-to-location table over a free pool of
//! callee-saved registers and a monotonically decreasing stack-offset counter.
//! One allocator lives for one function's generation; scope layers are pushed
//! and popped with the lexical blocks of the body.

use crate::text::str_eq;
use vstd::prelude::*;

verus! {

/// Storage location of one variable.
#[derive(Debug, Clone, PartialEq)]
pub enum Variable {
    /// Signed byte offset from the frame pointer.
    Stack(i32),
    /// A callee-saved register, by number (19 stands for `w19`, and so on).
    Register(u8),
    /// A global symbol label. The allocator never produces this location;
    /// it exists for bindings seeded from outside the function.
    Global(String),
}

/// Mathematical model of an allocator: the stack-offset counter, the free
/// register pool (last element is handed out next), and the scope layers
/// (last layer is the innermost; within a layer the last binding wins).
#[verifier::ext_equal]
pub struct AllocModel {
    pub off: i32,
    pub free: Seq<u8>,
    pub scopes: Seq<Seq<(Seq<char>, Variable)>>,
}

/// View of one scope layer: binding names by their character sequences.
pub open spec fn scope_view(s: Seq<(String, Variable)>) -> Seq<(Seq<char>, Variable)> {
    Seq::new(s.len(), |i: int| (s[i].0@, s[i].1))
}

/// The allocator. See [`AllocModel`] for the abstract state.
pub struct Allocator {
    next_stack_offset: i32,
    free_registers: Vec<u8>,
    scopes: Vec<Vec<(String, Variable)>>,
}

impl View for Allocator {
    type V = AllocModel;

    closed spec fn view(&self) -> AllocModel {
        AllocModel {
            off: self.next_stack_offset,
            free: self.free_registers@,
            scopes: Seq::new(self.scopes@.len(), |i: int| scope_view(self.scopes@[i]@)),
        }
    }
}

/// Well-formedness: the offset counter never goes above zero, at least one
/// scope layer is open, and no binding holds a global location (the
/// allocator itself only ever binds registers and stack slots).
pub open spec fn alloc_wf(m: AllocModel) -> bool {
    &&& m.off <= 0
    &&& m.scopes.len() >= 1
    &&& forall|i: int, j: int|
        0 <= i < m.scopes.len() && 0 <= j < m.scopes[i].len() ==> !(
        #[trigger] m.scopes[i][j].1 is Global)
}

/// The new offset after reserving `size` bytes: the counter decreases and
/// saturates at the lowest representable offset.
pub open spec fn spec_next_off(off: i32, size: int) -> i32 {
    if off - size >= i32::MIN {
        (off - size) as i32
    } else {
        i32::MIN
    }
}

/// Appends a binding to the innermost scope layer.
pub open spec fn spec_bind(
    scopes: Seq<Seq<(Seq<char>, Variable)>>,
    name: Seq<char>,
    v: Variable,
) -> Seq<Seq<(Seq<char>, Variable)>>
    recommends
        scopes.len() >= 1,
{
    scopes.update(scopes.len() - 1, scopes.last().push((name, v)))
}

/// What `allocate` does: for the supported width, pop a register from the
/// pool if one is free; otherwise move the stack counter down by `size`.
/// Returns the new state and the location bound to `name`.
pub open spec fn spec_allocate(m: AllocModel, name: Seq<char>, size: int) -> (AllocModel, Variable) {
    if size == 4 && m.free.len() > 0 {
        let v = Variable::Register(m.free.last());
        (
            AllocModel {
                free: m.free.drop_last(),
                scopes: spec_bind(m.scopes, name, v),
                ..m
            },
            v,
        )
    } else {
        let new_off = spec_next_off(m.off, size);
        let v = Variable::Stack(new_off);
        (
            AllocModel { off: new_off, scopes: spec_bind(m.scopes, name, v), ..m },
            v,
        )
    }
}

/// Lookup within one scope layer, newest binding first.
pub open spec fn spec_get_scope(s: Seq<(Seq<char>, Variable)>, name: Seq<char>) -> Option<Variable>
    decreases s.len(),
{
    if s.len() == 0 {
        None
    } else if s.last().0 == name {
        Some(s.last().1)
    } else {
        spec_get_scope(s.drop_last(), name)
    }
}

/// Lookup across scope layers, innermost first.
pub open spec fn spec_get_scopes(
    ss: Seq<Seq<(Seq<char>, Variable)>>,
    name: Seq<char>,
) -> Option<Variable>
    decreases ss.len(),
{
    if ss.len() == 0 {
        None
    } else {
        match spec_get_scope(ss.last(), name) {
            Some(v) => Some(v),
            None => spec_get_scopes(ss.drop_last(), name),
        }
    }
}

/// What `get` returns: the nearest enclosing binding of `name`.
pub open spec fn spec_get(m: AllocModel, name: Seq<char>) -> Option<Variable> {
    spec_get_scopes(m.scopes, name)
}

/// The total number of stack bytes the allocator has handed out.
pub open spec fn spec_total(m: AllocModel) -> i32 {
    if m.off == i32::MIN {
        i32::MAX
    } else {
        (-m.off) as i32
    }
}

fn var_copy(v: &Variable) -> (r: Variable)
    requires
        !(v is Global),
    ensures
        r == *v,
{
    match v {
        Variable::Stack(o) => Variable::Stack(*o),
        Variable::Register(n) => Variable::Register(*n),
        Variable::Global(_) => Variable::Stack(0),  // unreachable under the precondition
    }
}

impl Allocator {
    /// A fresh allocator over the given free register pool, with one open
    /// scope layer and no stack bytes used.
    pub fn new(registers: &[u8]) -> (r: Allocator)
        ensures
            r@.off == 0,
            r@.free == registers@,
            r@.scopes =~~= seq![Seq::<(Seq<char>, Variable)>::empty()],
            alloc_wf(r@),
    {
        let mut scopes: Vec<Vec<(String, Variable)>> = Vec::new();
        scopes.push(Vec::new());
        let mut pool: Vec<u8> = Vec::new();
        let mut i: usize = 0;
        while i < registers.len()
            invariant
                i <= registers.len(),
                pool@ == registers@.subrange(0, i as int),
            decreases registers.len() - i,
        {
            pool.push(registers[i]);
            proof {
                assert(pool@ =~= registers@.subrange(0, i + 1 as int));
            }
            i += 1;
        }
        proof {
            assert(pool@ =~= registers@);
        }
        let r = Allocator {
            next_stack_offset: 0,
            free_registers: pool,
            scopes,
        };
        proof {
            assert(r@.scopes =~~= seq![Seq::<(Seq<char>, Variable)>::empty()]);
        }
        r
    }

    /// Binds `name` to a free register when one is available and the size is
    /// the supported word width, otherwise to the next stack slot.
    pub fn allocate(&mut self, name: String, size: i32) -> (r: Variable)
        requires
            alloc_wf(old(self)@),
            size >= 0,
        ensures
            final(self)@ == spec_allocate(old(self)@, name@, size as int).0,
            r == spec_allocate(old(self)@, name@, size as int).1,
            alloc_wf(final(self)@),
    {
        let ghost m = self@;
        let v = if size == 4 && self.free_registers.len() > 0 {
            match self.free_registers.pop() {
                Some(reg) => Variable::Register(reg),
                None => Variable::Stack(0),  // unreachable: the pool is nonempty
            }
        } else {
            let new_off = match self.next_stack_offset.checked_sub(size) {
                Some(o) => o,
                None => i32::MIN,
            };
            self.next_stack_offset = new_off;
            Variable::Stack(new_off)
        };
        let bound = var_copy(&v);
        match self.scopes.pop() {
            Some(mut top) => {
                top.push((name, bound));
                self.scopes.push(top);
            },
            None => (),  // unreachable: a scope layer is always open
        }
        proof {
            assert(self@.scopes =~~= spec_allocate(m, name@, size as int).0.scopes);
            assert(self@ =~~= spec_allocate(m, name@, size as int).0);
        }
        v
    }

    /// Looks `name` up, innermost scope first.
    pub fn get(&self, name: &str) -> (r: Option<Variable>)
        requires
            alloc_wf(self@),
        ensures
            r == spec_get(self@, name@),
    {
        let ghost m = self@;
        let mut si: usize = self.scopes.len();
        proof {
            assert(m.scopes.subrange(0, si as int) =~~= m.scopes);
        }
        while si > 0
            invariant
                alloc_wf(m),
                self@ == m,
                si <= m.scopes.len(),
                spec_get_scopes(m.scopes, name@) == spec_get_scopes(
                    m.scopes.subrange(0, si as int),
                    name@,
                ),
            decreases si,
        {
            si = si - 1;
            let scope = &self.scopes[si];
            let ghost sv = m.scopes[si as int];
            let mut k: usize = scope.len();
            proof {
                assert(sv.subrange(0, k as int) =~~= sv);
            }
            while k > 0
                invariant
                    alloc_wf(m),
                    self@ == m,
                    si < m.scopes.len(),
                    sv == m.scopes[si as int],
                    scope == self.scopes[si as int],
                    spec_get_scopes(m.scopes, name@) == spec_get_scopes(
                        m.scopes.subrange(0, si + 1 as int),
                        name@,
                    ),
                    k <= sv.len(),
                    sv.len() == scope@.len(),
                    spec_get_scope(sv, name@) == spec_get_scope(
                        sv.subrange(0, k as int),
                        name@,
                    ),
                decreases k,
            {
                k = k - 1;
                let pair = &scope[k];
                proof {
                    assert(sv.subrange(0, k + 1 as int).last() == sv[k as int]);
                    assert(sv.subrange(0, k + 1 as int).drop_last() =~~= sv.subrange(
                        0,
                        k as int,
                    ));
                    assert(sv[k as int] == (pair.0@, pair.1));
                }
                if str_eq(name, pair.0.as_str()) {
                    proof {
                        assert(spec_get_scope(sv, name@) == Some(sv[k as int].1));
                        assert(!(m.scopes[si as int][k as int].1 is Global));
                        lemma_get_scopes_prefix_found(m.scopes, si as int, name@);
                    }
                    return Some(var_copy(&pair.1));
                }
            }
            proof {
                assert(sv.subrange(0, 0) =~~= Seq::<(Seq<char>, Variable)>::empty());
                assert(spec_get_scope(sv, name@) is None);
                assert(m.scopes.subrange(0, si + 1 as int).last() == sv);
                assert(m.scopes.subrange(0, si + 1 as int).drop_last() =~~= m.scopes.subrange(
                    0,
                    si as int,
                ));
            }
        }
        proof {
            assert(m.scopes.subrange(0, 0) =~~= Seq::<Seq<(Seq<char>, Variable)>>::empty());
        }
        None
    }

    /// The total number of stack bytes handed out so far.
    pub fn total_stack_size(&self) -> (r: i32)
        requires
            alloc_wf(self@),
        ensures
            r == spec_total(self@),
    {
        if self.next_stack_offset == i32::MIN {
            i32::MAX
        } else {
            -self.next_stack_offset
        }
    }

    /// Opens a fresh innermost scope layer.
    pub fn enter_scope(&mut self)
        ensures
            final(self)@ == (AllocModel {
                scopes: old(self)@.scopes.push(Seq::empty()),
                ..old(self)@
            }),
    {
        self.scopes.push(Vec::new());
        proof {
            assert(self@.scopes =~~= old(self)@.scopes.push(Seq::empty()));
            assert(self@ =~~= (AllocModel {
                scopes: old(self)@.scopes.push(Seq::empty()),
                ..old(self)@
            }));
        }
    }

    /// Closes the innermost scope layer, dropping its bindings. The stack
    /// counter and the register pool are not restored: within one function
    /// they are monotonically consumed, and the generator restores a saved
    /// allocator snapshot where a construct's scope ends.
    pub fn exit_scope(&mut self)
        requires
            old(self)@.scopes.len() >= 2,
        ensures
            final(self)@ == (AllocModel { scopes: old(self)@.scopes.drop_last(), ..old(self)@ }),
    {
        let _ = self.scopes.pop();
        proof {
            assert(self@.scopes =~~= old(self)@.scopes.drop_last());
            assert(self@ =~~= (AllocModel {
                scopes: old(self)@.scopes.drop_last(),
                ..old(self)@
            }));
        }
    }

    /// A snapshot copy, used to restore allocator state when a nested
    /// scope's construct ends.
    pub fn snapshot(&self) -> (r: Allocator)
        requires
            alloc_wf(self@),
        ensures
            r@ == self@,
            alloc_wf(r@),
    {
        let mut scopes: Vec<Vec<(String, Variable)>> = Vec::new();
        let mut i: usize = 0;
        while i < self.scopes.len()
            invariant
                i <= self.scopes.len(),
                alloc_wf(self@),
                scopes@.len() == i,
                forall|k: int|
                    0 <= k < i ==> scope_view(#[trigger] scopes@[k]@) == self@.scopes[k],
            decreases self.scopes.len() - i,
        {
            let scope = &self.scopes[i];
            let mut copy: Vec<(String, Variable)> = Vec::new();
            let mut j: usize = 0;
            while j < scope.len()
                invariant
                    j <= scope.len(),
                    alloc_wf(self@),
                    i < self.scopes.len(),
                    scope == self.scopes[i as int],
                    copy@.len() == j,
                    forall|k: int|
                        0 <= k < j ==> (#[trigger] copy@[k].0@, copy@[k].1)
                            == self@.scopes[i as int][k],
                decreases scope.len() - j,
            {
                let pair = &scope[j];
                proof {
                    assert(self@.scopes[i as int][j as int] == (pair.0@, pair.1));
                    assert(!(self@.scopes[i as int][j as int].1 is Global));
                }
                copy.push((pair.0.clone(), var_copy(&pair.1)));
                j += 1;
            }
            proof {
                assert(scope_view(copy@) =~~= self@.scopes[i as int]);
            }
            scopes.push(copy);
            i += 1;
        }
        let r = Allocator {
            next_stack_offset: self.next_stack_offset,
            free_registers: self.free_registers.clone(),
            scopes,
        };
        proof {
            assert(r@.scopes =~~= self@.scopes);
            assert(r@ =~~= self@);
        }
        r
    }
}

proof fn lemma_get_scope_not_global(s: Seq<(Seq<char>, Variable)>, name: Seq<char>)
    requires
        forall|j: int| 0 <= j < s.len() ==> !(#[trigger] s[j].1 is Global),
    ensures
        spec_get_scope(s, name) matches Some(v) ==> !(v is Global),
    decreases s.len(),
{
    if s.len() > 0 && !(s.last().0 == name) {
        lemma_get_scope_not_global(s.drop_last(), name);
    }
}

/// Under well-formedness, every lookup result is a register or stack
/// location, never a global one.
pub proof fn lemma_get_not_global(m: AllocModel, name: Seq<char>)
    requires
        alloc_wf(m),
    ensures
        spec_get(m, name) matches Some(v) ==> !(v is Global),
{
    lemma_get_scopes_not_global(m.scopes, name);
}

proof fn lemma_get_scopes_not_global(ss: Seq<Seq<(Seq<char>, Variable)>>, name: Seq<char>)
    requires
        forall|i: int, j: int|
            0 <= i < ss.len() && 0 <= j < ss[i].len() ==> !(#[trigger] ss[i][j].1 is Global),
    ensures
        spec_get_scopes(ss, name) matches Some(v) ==> !(v is Global),
    decreases ss.len(),
{
    if ss.len() > 0 {
        assert(forall|j: int| 0 <= j < ss.last().len() ==> !(#[trigger] ss.last()[j].1 is Global))
            by {
            assert(forall|j: int|
                0 <= j < ss.last().len() ==> ss.last()[j] == ss[ss.len() - 1][j]);
        }
        lemma_get_scope_not_global(ss.last(), name);
        assert(forall|i: int, j: int|
            0 <= i < ss.drop_last().len() && 0 <= j < ss.drop_last()[i].len() ==> !(
            #[trigger] ss.drop_last()[i][j].1 is Global)) by {
            assert(forall|i: int|
                0 <= i < ss.len() - 1 ==> #[trigger] ss.drop_last()[i] == ss[i]);
        }
        lemma_get_scopes_not_global(ss.drop_last(), name);
    }
}

proof fn lemma_get_scopes_prefix_found(
    ss: Seq<Seq<(Seq<char>, Variable)>>,
    si: int,
    name: Seq<char>,
)
    requires
        0 <= si < ss.len(),
        spec_get_scope(ss[si], name) is Some,
        spec_get_scopes(ss, name) == spec_get_scopes(ss.subrange(0, si + 1), name),
    ensures
        spec_get_scopes(ss, name) == spec_get_scope(ss[si], name),
{
    assert(ss.subrange(0, si + 1).last() == ss[si]);
}

} // verus!
