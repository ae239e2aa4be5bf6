use fibworkers::config::RunConfig;
use fibworkers::control::{controller_step, worker_decide, ControlAction, Phase, WorkerAction};

#[test]
fn worker_exits_on_stop() {
    assert_eq!(worker_decide(true), WorkerAction::Exit);
}

#[test]
fn worker_continues_while_running() {
    assert_eq!(worker_decide(false), WorkerAction::Work);
}

#[test]
fn controller_spawns_from_idle() {
    assert_eq!(
        controller_step(Phase::Idle, 0, 10_000),
        (Phase::Running, ControlAction::SpawnWorkers)
    );
}

#[test]
fn controller_samples_while_running() {
    assert_eq!(
        controller_step(Phase::Running, 500, 10_000),
        (Phase::Running, ControlAction::Sample)
    );
    assert_eq!(
        controller_step(Phase::Running, 9_999, 10_000),
        (Phase::Running, ControlAction::Sample)
    );
}

#[test]
fn controller_stops_at_expiry() {
    assert_eq!(
        controller_step(Phase::Running, 10_000, 10_000),
        (Phase::Stopping, ControlAction::SignalStop)
    );
    assert_eq!(
        controller_step(Phase::Running, 20_000, 10_000),
        (Phase::Stopping, ControlAction::SignalStop)
    );
}

#[test]
fn controller_joins_then_rests() {
    assert_eq!(
        controller_step(Phase::Stopping, 10_000, 10_000),
        (Phase::Done, ControlAction::JoinAndReport)
    );
    assert_eq!(
        controller_step(Phase::Done, 10_000, 10_000),
        (Phase::Done, ControlAction::Rest)
    );
}

#[test]
fn stop_is_signalled_exactly_once_over_a_run() {
    // Drive the state machine through a whole run, one step per simulated
    // 500 ms: the stop signal is emitted on exactly one step.
    let total_ms: u64 = 2_000;
    let mut phase = Phase::Idle;
    let mut stops = 0;
    for tick in 0..10u64 {
        let (next, action) = controller_step(phase, tick * 500, total_ms);
        if action == ControlAction::SignalStop {
            stops += 1;
        }
        phase = next;
    }
    assert_eq!(stops, 1);
    assert_eq!(phase, Phase::Done);
}

#[test]
fn default_configuration() {
    let c = RunConfig::default();
    assert_eq!(c.duration_secs, 10);
    assert_eq!(c.threads, 10);
    assert_eq!(c.sleep_ms, 50);
    assert_eq!(c.start_index, 10_000);
}

#[test]
fn slot_indices_are_consecutive() {
    let c = RunConfig::new(2, 3, 0, 5);
    assert_eq!(c.fib_index(0), 5);
    assert_eq!(c.fib_index(1), 6);
    assert_eq!(c.fib_index(2), 7);
}
