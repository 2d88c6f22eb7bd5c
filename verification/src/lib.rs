//! A non-blocking persistence sink: producers enqueue snapshots of the
//! whole application state, and a single background consumer durably
//! writes the latest snapshot to a destination, so that update loops
//! never wait on I/O.
//!
//! The crate verifies the core of the pipeline: the record codec, the
//! writer capability and its in-memory model, the drain loop with its
//! last-write-wins guarantee, the consumer's state machine, and the
//! load-or-default rule. The channel itself comes from `async_channel`
//! behind trusted wrappers; the asynchronous file writer lives with the
//! hosting application.

pub mod codec;
pub mod error;
pub mod loader;
pub mod plugin;
pub mod record;
pub mod sink;
pub mod task;
pub mod watch;
pub mod writer;
