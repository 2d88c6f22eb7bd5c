//! The sink channel: an unbounded multi-producer, single-consumer
//! queue of records from `async_channel`, behind trusted wrappers. A
//! producer's send never blocks and never fails for capacity; it can
//! only fail once the consumer is gone, and that failure is swallowed.

use vstd::prelude::*;
use crate::record::Record;

verus! {

#[verifier::external_type_specification]
#[verifier::external_body]
#[verifier::reject_recursive_types(T)]
pub struct ExSender<T>(async_channel::Sender<T>);

#[verifier::external_type_specification]
#[verifier::external_body]
#[verifier::reject_recursive_types(T)]
pub struct ExReceiver<T>(async_channel::Receiver<T>);

/// Relies on async_channel::unbounded: a connected queue pair with no
/// capacity bound.
#[verifier::external_body]
fn channel_unbounded() -> (r: (async_channel::Sender<Record>, async_channel::Receiver<Record>)) {
    async_channel::unbounded()
}

/// Relies on async_channel::Sender::try_send: queues the record
/// without waiting; on failure — for an unbounded channel, only once
/// the channel is closed — it hands the record back.
#[verifier::external_body]
fn channel_try_send(tx: &async_channel::Sender<Record>, rec: Record) -> (r: Result<(), Record>)
    ensures
        r matches Err(back) ==> back == rec,
{
    match tx.try_send(rec) {
        Ok(()) => Ok(()),
        Err(async_channel::TrySendError::Full(back)) => Err(back),
        Err(async_channel::TrySendError::Closed(back)) => Err(back),
    }
}

/// Relies on async_channel::Receiver::try_recv: hands out the next
/// queued record without waiting, or nothing when the queue is empty
/// or closed.
#[verifier::external_body]
pub(crate) fn channel_try_recv(rx: &async_channel::Receiver<Record>) -> (r: Option<Record>) {
    match rx.try_recv() {
        Ok(rec) => Some(rec),
        Err(_) => None,
    }
}

/// Relies on async_channel::Sender::clone: another send handle to the
/// same queue.
#[verifier::external_body]
fn channel_clone_sender(tx: &async_channel::Sender<Record>) -> (r: async_channel::Sender<Record>) {
    tx.clone()
}

/// A cloneable, shared-ownership send endpoint into the sink's queue.
/// Every clone feeds the one consumer task; records from a single
/// handle arrive at the writer in send order.
pub struct IoSender {
    tx: async_channel::Sender<Record>,
}

impl IoSender {
    /// Enqueues a snapshot without waiting on I/O completion. The only
    /// possible failure — the consumer task has already terminated —
    /// hands the record back.
    pub fn try_send(&self, rec: Record) -> (r: Result<(), Record>)
        ensures
            r matches Err(back) ==> back == rec,
    {
        channel_try_send(&self.tx, rec)
    }

    /// Fire-and-forget enqueue: a failure is swallowed, as the sink
    /// reports no success or failure to whoever triggered a save.
    pub fn send(&self, rec: Record) {
        let _ = channel_try_send(&self.tx, rec);
    }

    /// Another handle into the same queue, for another producer.
    pub fn clone_handle(&self) -> (r: IoSender) {
        IoSender { tx: channel_clone_sender(&self.tx) }
    }
}

/// Creates the sink's queue: a send endpoint for the producers, and
/// the receive end that the one consumer task drains.
pub fn new_sink() -> (r: (IoSender, async_channel::Receiver<Record>)) {
    let (tx, rx) = channel_unbounded();
    (IoSender { tx }, rx)
}

/// Takes whatever is queued right now — up to `max` records, in queue
/// order — without waiting. The consumer hands the result to the
/// writer's drain.
pub fn collect_pending(rx: &async_channel::Receiver<Record>, max: usize) -> (v: Vec<Record>)
    ensures
        v@.len() <= max,
{
    let mut v: Vec<Record> = Vec::new();
    let mut done = false;
    while !done && v.len() < max
        invariant
            v@.len() <= max,
        decreases (if done { 0int } else { 1int }), max - v@.len(),
    {
        match channel_try_recv(rx) {
            Some(rec) => v.push(rec),
            None => done = true,
        }
    }
    v
}

} // verus!
