//! Sequence ids for the messages that a port originates.

use vstd::prelude::*;

verus! {

/// Hands out consecutive sequence ids, starting at zero and wrapping around.
#[derive(Clone, Copy, PartialEq, Eq, Structural, Debug)]
pub struct SequenceIdGenerator {
    current: u16,
}

/// The sequence id that comes after `id`.
pub open spec fn next_id(id: u16) -> u16 {
    if id == u16::MAX {
        0
    } else {
        (id + 1) as u16
    }
}

/// The sequence id that comes `n` steps after `id`.
pub open spec fn nth_id(id: u16, n: nat) -> u16
    decreases n,
{
    if n == 0 {
        id
    } else {
        next_id(nth_id(id, (n - 1) as nat))
    }
}

impl View for SequenceIdGenerator {
    type V = u16;

    /// The id that is handed out next.
    closed spec fn view(&self) -> u16 {
        self.current
    }
}

impl SequenceIdGenerator {
    pub fn new() -> (generator: SequenceIdGenerator)
        ensures
            generator@ == 0,
    {
        SequenceIdGenerator { current: 0 }
    }

    /// Takes the next id.
    pub fn generate(&mut self) -> (id: u16)
        ensures
            id == old(self)@,
            final(self)@ == next_id(old(self)@),
    {
        let id: u16 = self.current;
        self.current = id.wrapping_add(1);
        id
    }
}

proof fn lemma_nth_id_value(id: u16, n: nat)
    ensures
        nth_id(id, n) == (id + n) % 0x1_0000,
    decreases n,
{
    if n > 0 {
        lemma_nth_id_value(id, (n - 1) as nat);
    }
}

/// Ids repeat only after all 65536 of them were handed out.
pub proof fn law_ids_are_distinct(id: u16, i: nat, j: nat)
    requires
        i < j,
        j - i < 0x1_0000,
    ensures
        nth_id(id, i) != nth_id(id, j),
{
    lemma_nth_id_value(id, i);
    lemma_nth_id_value(id, j);
}

/// Ids count up by one, modulo 65536.
pub proof fn law_ids_count_up(id: u16, n: nat)
    ensures
        next_id(id) as int == (id + 1) % 65_536,
        nth_id(id, n) as int == (id + n) % 65_536,
{
    lemma_nth_id_value(id, n);
}

} // verus!
