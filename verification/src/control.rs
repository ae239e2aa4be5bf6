//! The worker's loop body and stop decision, and the run controller's state
//! machine. The outside of the library spawns one thread per worker, performs
//! the sleeps, reads the clock, prints, and joins; every decision — what a
//! worker writes, when it exits, and which action the controller takes next —
//! is a verified function from plain values to plain values.
use vstd::prelude::*;
use crate::engine::compute;
use crate::engine::fib;
use crate::table::ResultTable;

verus! {

/// What a worker does next, given the stop-signal value it just observed
/// between iterations.
#[derive(Clone, Copy, Debug, PartialEq, Eq, Structural)]
pub enum WorkerAction {
    /// Run one more iteration: compute, publish, yield briefly.
    Work,
    /// Exit the loop.
    Exit,
}

/// The controller's lifecycle phase.
#[derive(Clone, Copy, Debug, PartialEq, Eq, Structural)]
pub enum Phase {
    /// Nothing started yet.
    Idle,
    /// Workers run; the controller samples the table once per tick.
    Running,
    /// The stop signal is set; workers are finishing their last iteration.
    Stopping,
    /// All workers joined and the final state reported.
    Done,
}

/// What the controller does on one step of its state machine.
#[derive(Clone, Copy, Debug, PartialEq, Eq, Structural)]
pub enum ControlAction {
    /// Initialize the table and the stop signal, spawn one worker per slot.
    SpawnWorkers,
    /// Print the table's contents, then sleep until the next tick.
    Sample,
    /// Set the stop signal, exactly once.
    SignalStop,
    /// Join every worker, then print the final contents and the duration.
    JoinAndReport,
    /// Nothing remains to do.
    Rest,
}

/// A worker's stop decision. A worker observes the signal only between
/// iterations: once the signal reads "stop", the very next decision is
/// `Exit`, so no worker runs more than the one iteration already in flight
/// past shutdown.
pub fn worker_decide(stop_observed: bool) -> (a: WorkerAction)
    ensures
        a == (if stop_observed {
            WorkerAction::Exit
        } else {
            WorkerAction::Work
        }),
{
    if stop_observed {
        WorkerAction::Exit
    } else {
        WorkerAction::Work
    }
}

/// One iteration of a worker's loop body: compute the Fibonacci value bound
/// to this worker and publish it into the worker's own slot, leaving every
/// other slot untouched.
pub fn worker_step(table: &mut ResultTable, slot: usize, n: usize)
    requires
        slot < old(table)@.len(),
    ensures
        final(table)@ == old(table)@.update(slot as int, fib(n as nat)),
        final(table)@.len() == old(table)@.len(),
{
    let value = compute(n);
    table.publish(slot, value);
}

/// Recomputation reaches a steady state: the value a worker publishes is the
/// same on every iteration, so once its slot holds the Fibonacci value bound
/// to it, a further iteration leaves the whole table unchanged.
pub proof fn lemma_steady_state(before: Seq<nat>, slot: int, n: nat)
    requires
        0 <= slot < before.len(),
        before[slot] == fib(n),
    ensures
        before.update(slot, fib(n)) == before,
{
    assert(before.update(slot, fib(n)) =~= before);
}

/// The controller's transition function: from a phase and the elapsed and
/// total run times (in milliseconds), the next phase and the action to take.
pub open spec fn controller_spec(phase: Phase, elapsed_ms: u64, total_ms: u64) -> (Phase,
    ControlAction) {
    match phase {
        Phase::Idle => (Phase::Running, ControlAction::SpawnWorkers),
        Phase::Running => if elapsed_ms < total_ms {
            (Phase::Running, ControlAction::Sample)
        } else {
            (Phase::Stopping, ControlAction::SignalStop)
        },
        Phase::Stopping => (Phase::Done, ControlAction::JoinAndReport),
        Phase::Done => (Phase::Done, ControlAction::Rest),
    }
}

/// One step of the controller: supervision samples the table while the
/// elapsed time is under the total duration, then the stop signal is set,
/// the workers are joined, and the final state is reported.
pub fn controller_step(phase: Phase, elapsed_ms: u64, total_ms: u64) -> (r: (Phase, ControlAction))
    ensures
        r == controller_spec(phase, elapsed_ms, total_ms),
{
    match phase {
        Phase::Idle => (Phase::Running, ControlAction::SpawnWorkers),
        Phase::Running => if elapsed_ms < total_ms {
            (Phase::Running, ControlAction::Sample)
        } else {
            (Phase::Stopping, ControlAction::SignalStop)
        },
        Phase::Stopping => (Phase::Done, ControlAction::JoinAndReport),
        Phase::Done => (Phase::Done, ControlAction::Rest),
    }
}

/// The stop signal is set exactly once and shutdown is irreversible: the only
/// transition emitting `SignalStop` is the one leaving `Running` at expiry,
/// and no later phase ever steps back to `Running`.
pub proof fn lemma_stop_signalled_once(phase: Phase, elapsed_ms: u64, total_ms: u64)
    ensures
        (controller_spec(phase, elapsed_ms, total_ms).1 == ControlAction::SignalStop) <==> (phase
            == Phase::Running && elapsed_ms >= total_ms),
        phase == Phase::Stopping || phase == Phase::Done ==> controller_spec(
            phase,
            elapsed_ms,
            total_ms,
        ).0 != Phase::Running,
{
}

} // verus!
