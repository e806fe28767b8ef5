//! The coordination core of a fixed-size worker pool: the control channel
//! that carries tasks and stop signals from the pool to its workers, the
//! pool's lifecycle (creation, submission, idempotent shutdown) and each
//! worker's decision loop. Threads, locks and joins live with the caller.
pub mod channel;
pub mod error;
pub mod laws;
pub mod message;
pub mod worker;

pub use channel::{Delivery, PoolCore, PoolView};
pub use error::PoolError;
pub use message::Message;
pub use worker::{Step, TaskOutcome, WorkerPhase, WorkerState};
