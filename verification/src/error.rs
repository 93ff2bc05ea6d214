use vstd::prelude::*;
use vstd::string::*;

verus! {

/// Why constructing a pool failed. Both conditions are reported synchronously
/// to the caller of `build`; no partial pool is ever returned.
#[derive(Debug, Clone, Copy)]
pub enum PoolCreationError {
    /// The requested worker count was zero: such a pool could never make
    /// progress, so it is rejected before any resource is allocated.
    InvalidSize,
    /// The operating system refused to create a worker thread. Carries the
    /// raw OS error code when the system supplied one.
    ThreadSpawnError(Option<i32>),
}

impl PoolCreationError {
    /// True exactly for the rejection of a zero-size request.
    pub fn is_invalid_size(&self) -> (r: bool)
        ensures
            r == (*self is InvalidSize),
    {
        match self {
            PoolCreationError::InvalidSize => true,
            PoolCreationError::ThreadSpawnError(_) => false,
        }
    }

    /// The OS error code, where the failure was a refused thread spawn and
    /// the system supplied a code.
    pub fn os_code(&self) -> (r: Option<i32>)
        ensures
            *self matches PoolCreationError::ThreadSpawnError(c) ==> r == c,
            *self is InvalidSize ==> r is None,
    {
        match self {
            PoolCreationError::InvalidSize => None,
            PoolCreationError::ThreadSpawnError(c) => *c,
        }
    }

    /// A human-readable description of the failure.
    pub fn message(&self) -> (r: String)
        ensures
            *self is InvalidSize ==> r@ == "ThreadPool size must be greater than zero"@,
            *self is ThreadSpawnError ==> r@ == "Failed to spawn thread"@,
    {
        match self {
            PoolCreationError::InvalidSize => "ThreadPool size must be greater than zero".to_owned(),
            PoolCreationError::ThreadSpawnError(_) => "Failed to spawn thread".to_owned(),
        }
    }
}

} // verus!
