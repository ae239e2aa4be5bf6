//! The Fibonacci engine: a pure function computing the nth Fibonacci number
//! over arbitrary-precision integers, plus the predicate that decides when the
//! artificial delay fires. The delay itself (blocking the calling thread) is
//! performed by the caller outside the library; the engine's value never
//! depends on it.
use vstd::prelude::*;
use num_bigint::BigUint;
use crate::bignum::{big_add, big_one, big_value, big_zero};

verus! {

/// The Fibonacci sequence over unbounded naturals: the mathematical model
/// that the engine's results are held to.
pub open spec fn fib(n: nat) -> nat
    decreases n,
{
    if n == 0 {
        0
    } else if n == 1 {
        1
    } else {
        fib((n - 1) as nat) + fib((n - 2) as nat)
    }
}

/// The delay trigger: the injected delay fires exactly on even indices.
pub open spec fn delay_applies(n: nat) -> bool {
    n % 2 == 0
}

/// Decides whether the injected delay fires before computing index `n`.
/// The caller blocks for the configured delay when this returns true.
pub fn needs_delay(n: usize) -> (b: bool)
    ensures
        b == delay_applies(n as nat),
{
    n % 2 == 0
}

/// Computes the nth Fibonacci number exactly, by constant-memory iteration
/// over arbitrary-precision integers. Total for every `n`, bounded only by
/// available memory.
pub fn compute(n: usize) -> (r: BigUint)
    ensures
        big_value(r) == fib(n as nat),
{
    if n == 0 {
        return big_zero();
    }
    let mut prev: BigUint = big_zero();
    let mut curr: BigUint = big_one();
    let mut i: usize = 1;
    while i < n
        invariant
            1 <= i <= n,
            big_value(prev) == fib((i - 1) as nat),
            big_value(curr) == fib(i as nat),
        decreases n - i,
    {
        let next = big_add(&prev, &curr);
        assert(big_value(next) == fib((i + 1) as nat));
        prev = curr;
        curr = next;
        i = i + 1;
    }
    curr
}

/// The injected delay affects timing only, never the numeric result: the
/// engine's contract pins the value computed for an index, so the results of
/// any two calls for the same index — whatever delays were configured — are
/// equal.
pub proof fn lemma_delay_does_not_change_value(n: nat, with_delay: nat, without_delay: nat)
    requires
        with_delay == fib(n),
        without_delay == fib(n),
    ensures
        with_delay == without_delay,
{
}

/// The base cases of the engine: index 0 yields 0 and index 1 yields 1.
pub proof fn lemma_fib_base()
    ensures
        fib(0) == 0,
        fib(1) == 1,
{
}

/// The recurrence holds exactly for arbitrary-precision values: for `n >= 2`,
/// the nth Fibonacci number is the sum of the two before it, with no
/// truncation.
pub proof fn lemma_fib_recurrence(n: nat)
    requires
        n >= 2,
    ensures
        fib(n) == fib((n - 1) as nat) + fib((n - 2) as nat),
{
}

} // verus!
