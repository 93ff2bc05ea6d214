use worker_pool::worker::{worker_step, WorkerAction, WorkerEvent, WorkerState};

#[test]
fn waiting_worker_runs_a_received_job() {
    let (state, action) = worker_step(WorkerState::Waiting, WorkerEvent::JobReceived);
    assert_eq!(state, WorkerState::Executing);
    assert_eq!(action, WorkerAction::RunJob);
}

#[test]
fn finished_worker_waits_for_the_next_job() {
    let (state, action) = worker_step(WorkerState::Executing, WorkerEvent::JobFinished);
    assert_eq!(state, WorkerState::Waiting);
    assert_eq!(action, WorkerAction::AwaitNext);
}

#[test]
fn queue_closure_terminates_a_waiting_worker() {
    let (state, action) = worker_step(WorkerState::Waiting, WorkerEvent::QueueClosed);
    assert_eq!(state, WorkerState::Terminated);
    assert_eq!(action, WorkerAction::Exit);
}

#[test]
fn full_run_loop_lifetime() {
    // A worker's whole life: wait, run two jobs, then see the queue close.
    let mut state = WorkerState::Waiting;
    for _ in 0..2 {
        let (s, a) = worker_step(state, WorkerEvent::JobReceived);
        assert_eq!(a, WorkerAction::RunJob);
        state = s;
        let (s, a) = worker_step(state, WorkerEvent::JobFinished);
        assert_eq!(a, WorkerAction::AwaitNext);
        state = s;
    }
    let (s, a) = worker_step(state, WorkerEvent::QueueClosed);
    assert_eq!(s, WorkerState::Terminated);
    assert_eq!(a, WorkerAction::Exit);
}
