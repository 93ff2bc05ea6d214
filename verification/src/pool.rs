use vstd::prelude::*;
use crate::error::PoolCreationError;
use crate::worker::{Worker, WorkerState};
use crate::builder::PoolBuilder;

verus! {

/// The coordination state of a fixed-size worker pool.
///
/// Jobs are opaque to the pool: each submission is identified by its
/// ticket, its index in submission order, and the caller keeps the pairing
/// of tickets to actual work. The pool records which tickets are still
/// pending in the shared queue, how many have been handed to a worker, and
/// where each worker's run loop stands. All hand-off decisions go through
/// `&mut self`, which is what serializes the race for each pending job:
/// exactly one worker wins it.
pub struct ThreadPool {
    workers: Vec<Worker>,
    pending: Vec<u64>,
    submitted: u64,
    delivered: u64,
    closed: bool,
}

impl ThreadPool {
    /// The workers, in id order.
    pub closed spec fn worker_seq(self) -> Seq<Worker> {
        self.workers@
    }

    /// The tickets still queued, front first.
    pub closed spec fn pending_seq(self) -> Seq<u64> {
        self.pending@
    }

    /// How many jobs have been submitted; also the next ticket.
    pub closed spec fn submitted_count(self) -> u64 {
        self.submitted
    }

    /// How many jobs have been handed to a worker.
    pub closed spec fn delivered_count(self) -> u64 {
        self.delivered
    }

    /// Whether the producer side of the queue has been closed.
    pub closed spec fn is_closed(self) -> bool {
        self.closed
    }

    pub open spec fn worker_count(self) -> nat {
        self.worker_seq().len()
    }

    /// Every ticket submitted so far, in submission order.
    pub open spec fn submitted_seq(self) -> Seq<u64> {
        Seq::new(self.submitted_count() as nat, |i: int| i as u64)
    }

    /// Every ticket handed to a worker so far, in hand-off order.
    pub open spec fn delivered_seq(self) -> Seq<u64> {
        Seq::new(self.delivered_count() as nat, |i: int| i as u64)
    }

    /// The pool's invariant: at least one worker, ids `0..size` in order,
    /// and the queue holds exactly the submitted tickets not yet delivered,
    /// oldest first.
    pub open spec fn wf(self) -> bool {
        &&& 1 <= self.worker_count()
        &&& forall|i: int|
            0 <= i < self.worker_count() ==> (#[trigger] self.worker_seq()[i]).id == i
        &&& self.delivered_count() <= self.submitted_count()
        &&& self.pending_seq().len() == self.submitted_count() - self.delivered_count()
        &&& forall|i: int|
            0 <= i < self.pending_seq().len() ==> #[trigger] self.pending_seq()[i]
                == self.delivered_count() + i
    }

    /// Construct a pool of `size` workers, every one idle. A size of zero
    /// is rejected with `InvalidSize`; any other size yields a pool of
    /// exactly that many workers with an empty queue.
    pub fn build(size: usize) -> (r: Result<ThreadPool, PoolCreationError>)
        ensures
            size == 0 <==> r is Err,
            r matches Err(e) ==> e is InvalidSize,
            r matches Ok(p) ==> {
                &&& p.wf()
                &&& p.worker_count() == size
                &&& p.submitted_count() == 0
                &&& p.delivered_count() == 0
                &&& p.pending_seq().len() == 0
                &&& !p.is_closed()
                &&& forall|i: int|
                    0 <= i < size ==> (#[trigger] p.worker_seq()[i]).state is Waiting
            },
    {
        let mut b = match PoolBuilder::new(size) {
            Err(e) => {
                return Err(e);
            },
            Ok(b) => b,
        };
        let mut workers: Vec<Worker> = Vec::new();
        while !b.is_complete()
            invariant
                b.wf(),
                b.size_spec() == size,
                workers@.len() == b.spawned_spec(),
                forall|i: int|
                    0 <= i < workers@.len() ==> (#[trigger] workers@[i]).id == i
                        && workers@[i].state is Waiting,
            decreases size - b.spawned_spec(),
        {
            let id = b.next_worker_id();
            workers.push(Worker { id, state: WorkerState::Waiting });
            b.worker_spawned();
        }
        Ok(ThreadPool { workers, pending: Vec::new(), submitted: 0, delivered: 0, closed: false })
    }

    /// Submit a job: its ticket joins the back of the queue. Fire and
    /// forget — the caller learns the ticket, but nothing of when, or on
    /// which worker, the job will run. Submission never blocks and is
    /// possible whenever the pool is alive (not closed).
    pub fn execute(&mut self) -> (ticket: u64)
        requires
            old(self).wf(),
            !old(self).is_closed(),
            old(self).submitted_count() < u64::MAX,
        ensures
            final(self).wf(),
            ticket == old(self).submitted_count(),
            final(self).submitted_count() == old(self).submitted_count() + 1,
            final(self).pending_seq() == old(self).pending_seq().push(ticket),
            final(self).delivered_count() == old(self).delivered_count(),
            final(self).worker_seq() == old(self).worker_seq(),
            final(self).is_closed() == old(self).is_closed(),
    {
        let ticket = self.submitted;
        self.pending.push(ticket);
        self.submitted = self.submitted + 1;
        ticket
    }

    /// Worker `w`, idle and blocked on the queue, races for the next job.
    /// If the queue is empty it keeps waiting and nothing changes. Otherwise
    /// it wins exactly the oldest pending ticket — which thereby leaves the
    /// queue, so no other worker can ever receive it — and moves to
    /// `Executing`; no other worker is touched.
    pub fn take_job(&mut self, w: usize) -> (r: Option<u64>)
        requires
            old(self).wf(),
            w < old(self).worker_count(),
            old(self).worker_seq()[w as int].state is Waiting,
        ensures
            final(self).wf(),
            old(self).pending_seq().len() == 0 ==> r is None && *final(self) == *old(self),
            old(self).pending_seq().len() > 0 ==> {
                &&& r == Some(old(self).pending_seq()[0])
                &&& r == Some(old(self).delivered_count())
                &&& final(self).pending_seq() == old(self).pending_seq().drop_first()
                &&& final(self).delivered_count() == old(self).delivered_count() + 1
                &&& final(self).worker_seq() == old(self).worker_seq().update(
                    w as int,
                    (Worker { id: w, state: WorkerState::Executing }),
                )
                &&& final(self).submitted_count() == old(self).submitted_count()
                &&& final(self).is_closed() == old(self).is_closed()
            },
    {
        if self.pending.len() == 0 {
            None
        } else {
            let ticket = self.pending.remove(0);
            self.workers[w].state = WorkerState::Executing;
            self.delivered = self.delivered + 1;
            proof {
                assert(final(self).pending_seq() =~= old(self).pending_seq().drop_first());
                assert(final(self).worker_seq() =~= old(self).worker_seq().update(
                    w as int,
                    (Worker { id: w, state: WorkerState::Executing }),
                ));
            }
            Some(ticket)
        }
    }

    /// Worker `w`'s job returned; the worker goes back to waiting on the
    /// queue. The pool does not interpret the job's outcome.
    pub fn finish_job(&mut self, w: usize)
        requires
            old(self).wf(),
            w < old(self).worker_count(),
            old(self).worker_seq()[w as int].state is Executing,
        ensures
            final(self).wf(),
            final(self).worker_seq() == old(self).worker_seq().update(
                w as int,
                (Worker { id: w, state: WorkerState::Waiting }),
            ),
            final(self).pending_seq() == old(self).pending_seq(),
            final(self).submitted_count() == old(self).submitted_count(),
            final(self).delivered_count() == old(self).delivered_count(),
            final(self).is_closed() == old(self).is_closed(),
    {
        self.workers[w].state = WorkerState::Waiting;
        proof {
            assert(final(self).worker_seq() =~= old(self).worker_seq().update(
                w as int,
                (Worker { id: w, state: WorkerState::Waiting }),
            ));
        }
    }

    /// Close the producer side of the queue. No further submission is
    /// possible; workers that find the queue closed and drained terminate.
    pub fn close(&mut self)
        requires
            old(self).wf(),
        ensures
            final(self).wf(),
            final(self).is_closed(),
            final(self).worker_seq() == old(self).worker_seq(),
            final(self).pending_seq() == old(self).pending_seq(),
            final(self).submitted_count() == old(self).submitted_count(),
            final(self).delivered_count() == old(self).delivered_count(),
    {
        self.closed = true;
    }

    /// Teardown: close the queue and join every worker. Asks that the pool
    /// be quiescent — the queue drained and no worker mid-job, which is
    /// what joining waits for — and leaves every worker terminated: none
    /// remains running, none is leaked. Returns how many were joined.
    pub fn shutdown(&mut self) -> (joined: usize)
        requires
            old(self).wf(),
            old(self).pending_seq().len() == 0,
            forall|i: int|
                0 <= i < old(self).worker_count()
                    ==> !((#[trigger] old(self).worker_seq()[i]).state is Executing),
        ensures
            final(self).wf(),
            final(self).is_closed(),
            joined == old(self).worker_count(),
            final(self).worker_count() == old(self).worker_count(),
            forall|i: int|
                0 <= i < final(self).worker_count()
                    ==> (#[trigger] final(self).worker_seq()[i]).state is Terminated,
            final(self).pending_seq() == old(self).pending_seq(),
            final(self).submitted_count() == old(self).submitted_count(),
            final(self).delivered_count() == old(self).delivered_count(),
    {
        self.closed = true;
        let n = self.workers.len();
        let mut i: usize = 0;
        while i < n
            invariant
                n == self.workers@.len(),
                i <= n,
                self.wf(),
                self.closed,
                self.pending@ == old(self).pending_seq(),
                self.submitted == old(self).submitted_count(),
                self.delivered == old(self).delivered_count(),
                forall|k: int|
                    0 <= k < i ==> (#[trigger] self.workers@[k]).state is Terminated,
                forall|k: int|
                    i <= k < n ==> #[trigger] self.workers@[k] == old(self).worker_seq()[k],
            decreases n - i,
        {
            self.workers[i].state = WorkerState::Terminated;
            i = i + 1;
        }
        n
    }

    /// The fixed worker count.
    pub fn size(&self) -> (n: usize)
        ensures
            n == self.worker_count(),
    {
        self.workers.len()
    }

    /// How many jobs are queued, submitted but not yet handed to a worker.
    pub fn pending_len(&self) -> (n: usize)
        ensures
            n == self.pending_seq().len(),
    {
        self.pending.len()
    }

    /// How many jobs have been submitted so far.
    pub fn jobs_submitted(&self) -> (n: u64)
        ensures
            n == self.submitted_count(),
    {
        self.submitted
    }

    /// How many jobs have been handed to a worker so far.
    pub fn jobs_delivered(&self) -> (n: u64)
        ensures
            n == self.delivered_count(),
    {
        self.delivered
    }

    /// Whether the producer side of the queue has been closed.
    pub fn queue_closed(&self) -> (b: bool)
        ensures
            b == self.is_closed(),
    {
        self.closed
    }

    /// Where worker `w`'s run loop stands.
    pub fn worker_state(&self, w: usize) -> (s: WorkerState)
        requires
            w < self.worker_count(),
        ensures
            s == self.worker_seq()[w as int].state,
    {
        self.workers[w].state
    }
}

/// Law: delivery is exact and in order. No ticket is ever handed to two
/// workers (each appears at most once in the delivered sequence); the
/// delivered and still-pending tickets together are exactly the submitted
/// ones, so no job is lost or invented; and hand-off follows submission
/// order — the delivered sequence is precisely the first part of the
/// submitted sequence.
pub proof fn lemma_exactly_once_fifo(p: ThreadPool)
    requires
        p.wf(),
    ensures
        forall|i: int, j: int|
            0 <= i < j < p.delivered_seq().len() ==> #[trigger] p.delivered_seq()[i]
                != #[trigger] p.delivered_seq()[j],
        p.delivered_seq() + p.pending_seq() =~= p.submitted_seq(),
        p.delivered_seq() =~= p.submitted_seq().take(p.delivered_count() as int),
{
    let d = p.delivered_count() as int;
    assert forall|k: int| 0 <= k < p.submitted_seq().len() implies (p.delivered_seq()
        + p.pending_seq())[k] == p.submitted_seq()[k] by {
        if k < d {
            assert((p.delivered_seq() + p.pending_seq())[k] == p.delivered_seq()[k]);
        } else {
            assert((p.delivered_seq() + p.pending_seq())[k] == p.pending_seq()[k - d]);
        }
    }
}

/// Law: once the queue has drained, every job ever submitted has been
/// handed to a worker, each exactly once — submitting `k` jobs and letting
/// the workers drain the queue delivers all `k`, whatever the worker count.
pub proof fn lemma_drained_all_delivered(p: ThreadPool)
    requires
        p.wf(),
        p.pending_seq().len() == 0,
    ensures
        p.delivered_count() == p.submitted_count(),
        p.delivered_seq() =~= p.submitted_seq(),
{
}

} // verus!
