//! The shared result table: a fixed-size mapping from worker slot index to
//! the latest value that worker computed. The table is created once, all
//! slots zero, and is never resized; a slot changes only by `publish`. The
//! exclusive-access discipline (one lock over the whole table) is the
//! caller's: the library states what each read and write does to the
//! contents.
use vstd::prelude::*;
use num_bigint::BigUint;
use crate::bignum::big_value;
use crate::bignum::big_zero;

verus! {

/// An ordered sequence of arbitrary-precision integers, one slot per worker.
pub struct ResultTable {
    slots: Vec<BigUint>,
}

impl ResultTable {
    /// The table viewed as the sequence of integers its slots hold.
    pub closed spec fn view(&self) -> Seq<nat> {
        self.slots@.map(|i: int, b: BigUint| big_value(b))
    }

    /// Creates the table for `threads` workers, every slot initialized to
    /// zero. The length equals the configured thread count from this moment
    /// on: no operation resizes the table.
    pub fn new(threads: usize) -> (t: Self)
        ensures
            t@.len() == threads,
            forall|i: int| 0 <= i < threads ==> t@[i] == 0,
    {
        let mut slots: Vec<BigUint> = Vec::new();
        let mut k: usize = 0;
        while k < threads
            invariant
                k <= threads,
                slots@.len() == k,
                forall|i: int| 0 <= i < k ==> big_value(#[trigger] slots@[i]) == 0,
            decreases threads - k,
        {
            slots.push(big_zero());
            k = k + 1;
        }
        let t = ResultTable { slots };
        assert forall|i: int| 0 <= i < threads implies t@[i] == 0 by {
            assert(t@[i] == big_value(t.slots@[i]));
        }
        t
    }

    /// The number of slots, which always equals the thread count the table
    /// was created for.
    pub fn len(&self) -> (n: usize)
        ensures
            n == self@.len(),
    {
        self.slots.len()
    }

    /// Reads one slot. Reading never changes the table, so two reads with no
    /// intervening write return the same value.
    pub fn read(&self, slot: usize) -> (r: &BigUint)
        requires
            slot < self@.len(),
        ensures
            big_value(*r) == self@[slot as int],
    {
        &self.slots[slot]
    }

    /// Publishes a freshly computed value into one slot, leaving every other
    /// slot and the table's length unchanged.
    pub fn publish(&mut self, slot: usize, value: BigUint)
        requires
            slot < old(self)@.len(),
        ensures
            final(self)@ == old(self)@.update(slot as int, big_value(value)),
            final(self)@.len() == old(self)@.len(),
    {
        let ghost before = self.slots@;
        self.slots[slot] = value;
        proof {
            assert(self.slots@ == before.update(slot as int, value));
            assert(self@ =~= before.map(|i: int, b: BigUint| big_value(b)).update(
                slot as int,
                big_value(value),
            ));
        }
    }
}

/// The table's length always equals the thread count it was configured with:
/// it has that length at creation, and a publish into any slot preserves it,
/// so it holds at every observation point of a run.
pub proof fn lemma_length_invariant(before: Seq<nat>, slot: int, value: nat, threads: nat)
    requires
        before.len() == threads,
        0 <= slot < before.len(),
    ensures
        before.update(slot, value).len() == threads,
{
}

/// Reading the table is idempotent: the contents observed by two reads with
/// no intervening write are identical, because a read is a pure function of
/// the table's state.
pub proof fn lemma_read_idempotent(t: ResultTable, first: Seq<nat>, second: Seq<nat>)
    requires
        first == t@,
        second == t@,
    ensures
        first == second,
{
}

} // verus!
