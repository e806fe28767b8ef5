use vstd::prelude::*;

verus! {

/// Errors reported synchronously to callers of the pool.
#[derive(Debug, Clone, Copy, PartialEq, Eq, Structural)]
pub enum PoolError {
    /// A pool was requested with zero workers.
    InvalidConfiguration,
    /// Work was submitted after shutdown began.
    PoolClosed,
}

} // verus!
