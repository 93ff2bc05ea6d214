use vstd::prelude::*;

verus! {

/// Where a worker's run loop stands.
///
/// A worker starts in `Waiting`, blocked on the queue. It moves to
/// `Executing` when the queue yields a job, back to `Waiting` when the job
/// returns (the pool never inspects the job's outcome), and to `Terminated`
/// when the queue signals closure. `Terminated` is final.
#[derive(Debug, Clone, Copy, PartialEq, Eq, Structural)]
pub enum WorkerState {
    Waiting,
    Executing,
    Terminated,
}

/// What the queue or the running job reported to a worker's run loop.
#[derive(Debug, Clone, Copy, PartialEq, Eq, Structural)]
pub enum WorkerEvent {
    /// The queue yielded a job to this worker alone.
    JobReceived,
    /// The job the worker was running returned.
    JobFinished,
    /// The queue is closed and drained: no job will ever arrive.
    QueueClosed,
}

/// What the run loop must do next after taking a step.
#[derive(Debug, Clone, Copy, PartialEq, Eq, Structural)]
pub enum WorkerAction {
    /// Run the job just received, to completion.
    RunJob,
    /// Block on the queue for the next job or for closure.
    AwaitNext,
    /// Leave the run loop; the thread ends.
    Exit,
}

/// A worker of the pool: an integer identity in `0..size` and the point its
/// run loop has reached.
pub struct Worker {
    pub id: usize,
    pub state: WorkerState,
}

/// Which events can reach a worker in a given state: a job or closure can
/// only arrive while it waits, and only a running job can finish. A
/// terminated worker receives nothing.
pub open spec fn event_enabled(s: WorkerState, e: WorkerEvent) -> bool {
    match s {
        WorkerState::Waiting => e is JobReceived || e is QueueClosed,
        WorkerState::Executing => e is JobFinished,
        WorkerState::Terminated => false,
    }
}

/// The run loop's transition table.
pub open spec fn spec_worker_step(s: WorkerState, e: WorkerEvent) -> (WorkerState, WorkerAction) {
    match (s, e) {
        (WorkerState::Waiting, WorkerEvent::JobReceived) => (
            WorkerState::Executing,
            WorkerAction::RunJob,
        ),
        (WorkerState::Waiting, WorkerEvent::QueueClosed) => (
            WorkerState::Terminated,
            WorkerAction::Exit,
        ),
        (WorkerState::Executing, WorkerEvent::JobFinished) => (
            WorkerState::Waiting,
            WorkerAction::AwaitNext,
        ),
        _ => (s, WorkerAction::AwaitNext),
    }
}

/// One step of a worker's run loop: from the current state and the event
/// just observed, the next state and the action the thread must take.
pub fn worker_step(s: WorkerState, e: WorkerEvent) -> (r: (WorkerState, WorkerAction))
    requires
        event_enabled(s, e),
    ensures
        r == spec_worker_step(s, e),
{
    match (s, e) {
        (WorkerState::Waiting, WorkerEvent::JobReceived) => (
            WorkerState::Executing,
            WorkerAction::RunJob,
        ),
        (WorkerState::Waiting, WorkerEvent::QueueClosed) => (
            WorkerState::Terminated,
            WorkerAction::Exit,
        ),
        (WorkerState::Executing, WorkerEvent::JobFinished) => (
            WorkerState::Waiting,
            WorkerAction::AwaitNext,
        ),
        _ => (s, WorkerAction::AwaitNext),
    }
}

/// A worker runs a job only from `Waiting` and only when the queue yielded
/// one, so a worker never holds two jobs at once; it terminates only on
/// queue closure; and a terminated worker takes no further step.
pub proof fn lemma_run_loop_discipline(s: WorkerState, e: WorkerEvent)
    requires
        event_enabled(s, e),
    ensures
        spec_worker_step(s, e).1 is RunJob <==> (s is Waiting && e is JobReceived),
        spec_worker_step(s, e).1 is RunJob ==> spec_worker_step(s, e).0 is Executing,
        spec_worker_step(s, e).0 is Terminated <==> (s is Waiting && e is QueueClosed),
        forall|e2: WorkerEvent| !event_enabled(WorkerState::Terminated, e2),
{
}

} // verus!
