//! A bounded worker pool with a graceful-shutdown protocol, together with a
//! set of small verified utilities.
//!
//! The heart of the crate is [`pool::WorkerPool`]: a fixed set of workers
//! pulling control messages from one shared FIFO queue.  Jobs are opaque
//! values handed in by [`pool::WorkerPool::execute`]; shutdown sends exactly
//! one [`pool::Message::Shutdown`] per worker, after all pending work, so
//! every job submitted before shutdown is delivered exactly once before the
//! last worker stops.

pub mod arith;
pub mod art;
pub mod assoc;
pub mod birds;
pub mod closures;
pub mod boxed;
pub mod coins;
pub mod counter;
pub mod demos;
pub mod generics;
pub mod pool;
pub mod rect;
pub mod restaurant;
pub mod screen;
pub mod shoes;
pub mod summary;
pub mod text;
pub mod tracker;
