//! The run configuration: an immutable snapshot of the total duration, the
//! worker count, the injected delay, and the base Fibonacci index, fixed for
//! the whole run.
use vstd::prelude::*;

verus! {

/// The parameters of one run. Slot `i` of the result table is bound to
/// Fibonacci index `start_index + i`.
pub struct RunConfig {
    /// Total run duration, in seconds.
    pub duration_secs: u64,
    /// Number of worker threads, and so the result table's length.
    pub threads: usize,
    /// The injected delay, in milliseconds.
    pub sleep_ms: u64,
    /// The Fibonacci index bound to slot 0.
    pub start_index: usize,
}

impl RunConfig {
    /// Every slot's Fibonacci index fits in the machine's index type.
    pub open spec fn wf(&self) -> bool {
        self.start_index + self.threads <= usize::MAX
    }

    /// Builds a configuration whose slot indices cannot overflow.
    pub fn new(duration_secs: u64, threads: usize, sleep_ms: u64, start_index: usize) -> (c:
        Self)
        requires
            start_index + threads <= usize::MAX,
        ensures
            c == (RunConfig { duration_secs, threads, sleep_ms, start_index }),
            c.wf(),
    {
        RunConfig { duration_secs, threads, sleep_ms, start_index }
    }

    /// The Fibonacci index bound to a worker slot: the base index plus the
    /// slot's position.
    pub fn fib_index(&self, slot: usize) -> (n: usize)
        requires
            self.wf(),
            slot < self.threads,
        ensures
            n == self.start_index + slot,
    {
        self.start_index + slot
    }
}

impl Default for RunConfig {
    /// The default run: 10 seconds, 10 workers, a 50 ms injected delay, and
    /// Fibonacci indices starting at 10000.
    fn default() -> (c: Self)
        ensures
            c == (RunConfig { duration_secs: 10, threads: 10, sleep_ms: 50, start_index: 10000 }),
            c.wf(),
    {
        RunConfig { duration_secs: 10, threads: 10, sleep_ms: 50, start_index: 10000 }
    }
}

} // verus!
