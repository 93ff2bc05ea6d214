use vstd::prelude::*;
use crate::error::PoolCreationError;

verus! {

/// The construction protocol for a pool of a fixed size.
///
/// Construction spawns one worker at a time, in id order. The builder
/// records how far spawning has come, so that a spawn refused by the
/// operating system can be answered with the pool's policy: no partial pool
/// is ever returned, and every worker already running at the point of
/// failure is accounted for and must be shut down before the error
/// propagates.
pub struct PoolBuilder {
    size: usize,
    spawned: usize,
}

impl PoolBuilder {
    /// The worker count this construction is for.
    pub closed spec fn size_spec(self) -> usize {
        self.size
    }

    /// How many workers are already running.
    pub closed spec fn spawned_spec(self) -> usize {
        self.spawned
    }

    pub open spec fn wf(self) -> bool {
        &&& 1 <= self.size_spec()
        &&& self.spawned_spec() <= self.size_spec()
    }

    /// Begin constructing a pool of `size` workers. A size of zero is
    /// rejected before any resource is allocated: such a pool could never
    /// make progress.
    pub fn new(size: usize) -> (r: Result<PoolBuilder, PoolCreationError>)
        ensures
            size == 0 <==> r is Err,
            r matches Err(e) ==> e is InvalidSize,
            r matches Ok(b) ==> b.wf() && b.size_spec() == size && b.spawned_spec() == 0,
    {
        if size == 0 {
            Err(PoolCreationError::InvalidSize)
        } else {
            Ok(PoolBuilder { size, spawned: 0 })
        }
    }

    pub fn size(&self) -> (r: usize)
        ensures
            r == self.size_spec(),
    {
        self.size
    }

    pub fn spawned(&self) -> (r: usize)
        ensures
            r == self.spawned_spec(),
    {
        self.spawned
    }

    /// Whether every worker of the requested size is running.
    pub fn is_complete(&self) -> (r: bool)
        ensures
            r == (self.spawned_spec() == self.size_spec()),
    {
        self.spawned == self.size
    }

    /// The id the next worker must be given: ids are assigned in order,
    /// `0` up to `size - 1`.
    pub fn next_worker_id(&self) -> (id: usize)
        requires
            self.spawned_spec() < self.size_spec(),
        ensures
            id == self.spawned_spec(),
    {
        self.spawned
    }

    /// Record that the worker with id `next_worker_id()` is running.
    pub fn worker_spawned(&mut self)
        requires
            old(self).wf(),
            old(self).spawned_spec() < old(self).size_spec(),
        ensures
            final(self).wf(),
            final(self).size_spec() == old(self).size_spec(),
            final(self).spawned_spec() == old(self).spawned_spec() + 1,
    {
        self.spawned = self.spawned + 1;
    }

    /// The operating system refused to spawn the next worker: construction
    /// fails as a whole. Returns the error that `build` must report, wrapping
    /// the OS cause, and the number of workers already running, every one of
    /// which the caller must shut down and join before propagating the
    /// error — none may be leaked.
    pub fn abort(self, os_code: Option<i32>) -> (r: (PoolCreationError, usize))
        ensures
            r.0 == PoolCreationError::ThreadSpawnError(os_code),
            r.1 == self.spawned_spec(),
    {
        (PoolCreationError::ThreadSpawnError(os_code), self.spawned)
    }
}

} // verus!
