//! Which data a contract's bid/ask stream is turned into.
use vstd::prelude::*;

use crate::common::text::str_equals;

verus! {

/// Emit `QuoteTick` from bid/ask messages.
pub const BIDASK_EMIT_QUOTE: u8 = 1u8;

/// Emit `OrderBookDepth10` from bid/ask messages.
pub const BIDASK_EMIT_DEPTH: u8 = 2u8;

/// Emit `OrderBookDeltas` from bid/ask messages.
pub const BIDASK_EMIT_DELTAS: u8 = 4u8;

/// The emit flags that select quotes, depth snapshots and delta batches.
pub open spec fn output_flags_spec(quote: bool, depth: bool, deltas: bool) -> u8 {
    ((if quote { 1u8 } else { 0u8 }) | (if depth { 2u8 } else { 0u8 }) | (if deltas { 4u8 } else { 0u8 })) as u8
}

/// Combines the selected outputs into emit flags.
pub fn bidask_output_flags(quote: bool, depth: bool, deltas: bool) -> (r: u8)
    ensures
        (r & 1u8 != 0u8) == quote,
        (r & 2u8 != 0u8) == depth,
        (r & 4u8 != 0u8) == deltas,
        r & 248u8 == 0u8,
        r == output_flags_spec(quote, depth, deltas),
{
    let q: u8 = if quote { BIDASK_EMIT_QUOTE } else { 0 };
    let d: u8 = if depth { BIDASK_EMIT_DEPTH } else { 0 };
    let l: u8 = if deltas { BIDASK_EMIT_DELTAS } else { 0 };
    assert(((q | d | l) & 1u8 != 0u8) == (q == 1u8) && ((q | d | l) & 2u8 != 0u8) == (d == 2u8)
        && ((q | d | l) & 4u8 != 0u8) == (l == 4u8) && (q | d | l) & 248u8 == 0u8) by (bit_vector)
        requires
            q == 0u8 || q == 1u8,
            d == 0u8 || d == 2u8,
            l == 0u8 || l == 4u8,
    ;
    q | d | l
}

/// Whether emit flags select a given output bit.
pub open spec fn emits_spec(flags: u8, bit: u8) -> bool {
    flags & bit != 0
}

/// Whether emit flags select quotes.
pub fn emits_quote(flags: u8) -> (r: bool)
    ensures
        r == (flags & 1u8 != 0u8),
        r == emits_spec(flags, BIDASK_EMIT_QUOTE),
{
    flags & BIDASK_EMIT_QUOTE != 0
}

/// Whether emit flags select depth snapshots.
pub fn emits_depth(flags: u8) -> (r: bool)
    ensures
        r == (flags & 2u8 != 0u8),
        r == emits_spec(flags, BIDASK_EMIT_DEPTH),
{
    flags & BIDASK_EMIT_DEPTH != 0
}

/// Whether emit flags select delta batches.
pub fn emits_deltas(flags: u8) -> (r: bool)
    ensures
        r == (flags & 4u8 != 0u8),
        r == emits_spec(flags, BIDASK_EMIT_DELTAS),
{
    flags & BIDASK_EMIT_DELTAS != 0
}

/// The flags built from three selections select exactly those outputs, and
/// select nothing when none is chosen.
pub proof fn lemma_output_flags_round_trip(quote: bool, depth: bool, deltas: bool)
    ensures
        emits_spec(output_flags_spec(quote, depth, deltas), BIDASK_EMIT_QUOTE) == quote,
        emits_spec(output_flags_spec(quote, depth, deltas), BIDASK_EMIT_DEPTH) == depth,
        emits_spec(output_flags_spec(quote, depth, deltas), BIDASK_EMIT_DELTAS) == deltas,
        (output_flags_spec(quote, depth, deltas) == 0) == (!quote && !depth && !deltas),
{
    let q: u8 = if quote { 1u8 } else { 0u8 };
    let d: u8 = if depth { 2u8 } else { 0u8 };
    let l: u8 = if deltas { 4u8 } else { 0u8 };
    assert(((q | d | l) & 1u8 != 0) == (q == 1u8) && ((q | d | l) & 2u8 != 0) == (d == 2u8)
        && ((q | d | l) & 4u8 != 0) == (l == 4u8) && ((q | d | l) == 0u8) == (q == 0u8 && d == 0u8
        && l == 0u8)) by (bit_vector)
        requires
            q == 0u8 || q == 1u8,
            d == 0u8 || d == 2u8,
            l == 0u8 || l == 4u8,
    ;
}

/// The emit flags of each contract code; a code with no entry emits nothing.
///
/// The table is plain owned storage changed through `&mut self`, so that
/// every change is stated in the contract; a client that shares it between
/// tasks holds it behind a lock.
pub struct BidAskEmitFlags {
    entries: Vec<(String, u8)>,
}

impl BidAskEmitFlags {
    /// Whether a contract code has stored flags.
    pub closed spec fn has_entry(self, code: Seq<char>) -> bool {
        exists|i: int| 0 <= i < self.entries@.len() && #[trigger] self.entries@[i].0@ == code
    }

    /// The flags of a contract code, 0 when none are set.
    pub closed spec fn flags_of(self, code: Seq<char>) -> u8 {
        if self.has_entry(code) {
            self.entries@[choose|i: int| 0 <= i < self.entries@.len() && #[trigger] self.entries@[i].0@ == code].1
        } else {
            0u8
        }
    }

    /// Every stored entry has non-zero flags and its own code; every
    /// `BidAskEmitFlags` keeps this.
    #[verifier::type_invariant]
    pub closed spec fn wf(self) -> bool {
        &&& forall|i: int| 0 <= i < self.entries@.len() ==> #[trigger] self.entries@[i].1 != 0
        &&& forall|i: int, j: int| 0 <= i < self.entries@.len() && 0 <= j < self.entries@.len()
            && #[trigger] self.entries@[i].0@ == #[trigger] self.entries@[j].0@ ==> i == j
    }

    proof fn lemma_flags_at(self, i: int)
        requires
            self.wf(),
            0 <= i < self.entries@.len(),
        ensures
            self.flags_of(self.entries@[i].0@) == self.entries@[i].1,
    {
        let code = self.entries@[i].0@;
        assert(self.has_entry(code));
        let j = choose|j: int| 0 <= j < self.entries@.len() && #[trigger] self.entries@[j].0@ == code;
        assert(self.entries@[j].0@ == self.entries@[i].0@);
    }

    /// Flags for no contract.
    pub fn new() -> (r: Self)
        ensures
            r.wf(),
            forall|code: Seq<char>| #[trigger] r.flags_of(code) == 0,
    {
        BidAskEmitFlags { entries: Vec::new() }
    }

    fn position_of(&self, code: &str) -> (r: Option<usize>)
        requires
            self.wf(),
        ensures
            match r {
                Some(i) => i < self.entries@.len() && self.entries@[i as int].0@ == code@,
                None => !self.has_entry(code@),
            },
    {
        let n = self.entries.len();
        let mut i: usize = 0;
        while i < n
            invariant
                n == self.entries@.len(),
                i <= n,
                forall|j: int| 0 <= j < i ==> #[trigger] self.entries@[j].0@ != code@,
            decreases n - i,
        {
            if str_equals(self.entries[i].0.as_str(), code) {
                return Some(i);
            }
            i = i + 1;
        }
        None
    }

    /// Returns the emit flags of a contract code, or 0 if none are set.
    pub fn bidask_emit_for(&self, code: &str) -> (r: u8)
        ensures
            r == self.flags_of(code@),
    {
        proof {
            use_type_invariant(self);
        }
        match self.position_of(code) {
            Some(i) => {
                proof {
                    self.lemma_flags_at(i as int);
                }
                self.entries[i].1
            },
            None => 0,
        }
    }

    /// Sets the emit flags of a contract code; zero flags remove its entry.
    pub fn set_bidask_emit_for(&mut self, code: &str, flags: u8)
        ensures
            final(self).wf(),
            final(self).flags_of(code@) == flags,
            forall|other: Seq<char>| other != code@
                ==> #[trigger] final(self).flags_of(other) == old(self).flags_of(other),
    {
        proof {
            use_type_invariant(&*self);
        }
        let ghost before = self.entries@;
        let pos = self.position_of(code);
        if flags == 0 {
            if let Some(i) = pos {
                let mut ents: Vec<(String, u8)> = Vec::new();
                std::mem::swap(&mut ents, &mut self.entries);
                ents.remove(i);
                proof {
                    let next = BidAskEmitFlags { entries: ents };
                    assert(next.wf()) by {
                        assert forall|a: int, b: int| 0 <= a < ents@.len() && 0 <= b < ents@.len()
                            && #[trigger] ents@[a].0@ == #[trigger] ents@[b].0@ implies a == b by {
                            let a2 = if a < i { a } else { a + 1 };
                            let b2 = if b < i { b } else { b + 1 };
                            assert(ents@[a] == before[a2]);
                            assert(ents@[b] == before[b2]);
                        }
                        assert forall|a: int| 0 <= a < ents@.len() implies #[trigger] ents@[a].1 != 0 by {
                            let a2 = if a < i { a } else { a + 1 };
                            assert(ents@[a] == before[a2]);
                        }
                    }
                }
                self.entries = ents;
                assert forall|c: Seq<char>| c != code@ implies #[trigger] self.flags_of(c) == old(self).flags_of(c) by {
                    if old(self).has_entry(c) {
                        let j = choose|j: int| 0 <= j < before.len() && #[trigger] before[j].0@ == c;
                        old(self).lemma_flags_at(j);
                        let k = if j < i { j } else { j - 1 };
                        assert(self.entries@[k].0@ == c);
                        self.lemma_flags_at(k);
                    }
                    if self.has_entry(c) {
                        let k = choose|k: int| 0 <= k < self.entries@.len() && #[trigger] self.entries@[k].0@ == c;
                        let j = if k < i { k } else { k + 1 };
                        assert(before[j].0@ == c);
                    }
                }
                assert(!self.has_entry(code@)) by {
                    if self.has_entry(code@) {
                        let k = choose|k: int| 0 <= k < self.entries@.len() && #[trigger] self.entries@[k].0@ == code@;
                        let j = if k < i { k } else { k + 1 };
                        assert(before[j].0@ == code@);
                        assert(before[i as int].0@ == code@);
                    }
                }
            }
        } else {
            match pos {
                Some(i) => {
                    let mut ents: Vec<(String, u8)> = Vec::new();
                    std::mem::swap(&mut ents, &mut self.entries);
                    ents.set(i, (String::from_str(code), flags));
                    proof {
                        let next = BidAskEmitFlags { entries: ents };
                        assert(next.wf()) by {
                            assert forall|a: int, b: int| 0 <= a < ents@.len() && 0 <= b < ents@.len()
                                && #[trigger] ents@[a].0@ == #[trigger] ents@[b].0@ implies a == b by {
                                assert(a != i ==> ents@[a] == before[a]);
                                assert(b != i ==> ents@[b] == before[b]);
                                assert(before[i as int].0@ == code@);
                            }
                        }
                    }
                    self.entries = ents;
                    assert(self.entries@ == before.update(i as int, self.entries@[i as int]));
                    proof {
                        self.lemma_flags_at(i as int);
                    }
                    assert forall|c: Seq<char>| c != code@ implies #[trigger] self.flags_of(c) == old(self).flags_of(c) by {
                        if old(self).has_entry(c) {
                            let j = choose|j: int| 0 <= j < before.len() && #[trigger] before[j].0@ == c;
                            old(self).lemma_flags_at(j);
                            assert(self.entries@[j].0@ == c);
                            self.lemma_flags_at(j);
                        }
                        if self.has_entry(c) {
                            let k = choose|k: int| 0 <= k < self.entries@.len() && #[trigger] self.entries@[k].0@ == c;
                            assert(before[k].0@ == c);
                        }
                    }
                },
                None => {
                    let mut ents: Vec<(String, u8)> = Vec::new();
                    std::mem::swap(&mut ents, &mut self.entries);
                    ents.push((String::from_str(code), flags));
                    proof {
                        let next = BidAskEmitFlags { entries: ents };
                        assert(next.wf()) by {
                            assert forall|a: int, b: int| 0 <= a < ents@.len() && 0 <= b < ents@.len()
                                && #[trigger] ents@[a].0@ == #[trigger] ents@[b].0@ implies a == b by {
                                assert(a < before.len() ==> ents@[a] == before[a]);
                                assert(b < before.len() ==> ents@[b] == before[b]);
                                assert(a < before.len() ==> before[a].0@ != code@);
                                assert(b < before.len() ==> before[b].0@ != code@);
                            }
                            assert forall|a: int| 0 <= a < ents@.len() implies #[trigger] ents@[a].1 != 0 by {
                                assert(a < before.len() ==> ents@[a] == before[a]);
                            }
                        }
                    }
                    self.entries = ents;
                    proof {
                        self.lemma_flags_at(before.len() as int);
                    }
                    assert forall|c: Seq<char>| c != code@ implies #[trigger] self.flags_of(c) == old(self).flags_of(c) by {
                        if old(self).has_entry(c) {
                            let j = choose|j: int| 0 <= j < before.len() && #[trigger] before[j].0@ == c;
                            old(self).lemma_flags_at(j);
                            assert(self.entries@[j].0@ == c);
                            self.lemma_flags_at(j);
                        }
                        if self.has_entry(c) {
                            let k = choose|k: int| 0 <= k < self.entries@.len() && #[trigger] self.entries@[k].0@ == c;
                            assert(before[k].0@ == c);
                        }
                    }
                },
            }
        }
    }
}

} // verus!
