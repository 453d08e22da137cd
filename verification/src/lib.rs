//! A fixed-size worker pool.
//!
//! The pool owns the sending half of a FIFO work channel and a fixed set of
//! workers, each dequeuing messages from the shared receiving half. A
//! submitted job is executed exactly once by exactly one worker; shutdown
//! sends one `Terminate` message per worker and then joins every worker, in
//! construction order, before returning.
//!
//! Construction hands back one [`WorkerContext`] per worker beside the pool;
//! the caller gives each context an execution context of its own — a thread,
//! stepping the worker's verified receive-execute loop until it ends — since
//! starting threads is outside what this library may do itself.

use vstd::prelude::*;

mod channel;
pub mod pool;
pub mod routes;

pub use pool::{ThreadPool, WorkerContext};
pub use routes::{match_route, Route};

verus! {

/// The two failures the pool can report.
#[derive(Clone, Copy, Debug, PartialEq, Eq, Structural)]
pub enum PoolError {
    /// Construction was asked for fewer than one worker.
    ConfigurationError,
    /// The work channel has no live receivers (the workers have exited),
    /// so a submitted job cannot be delivered.
    DispatchError,
}

} // verus!
