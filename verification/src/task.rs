//! The consumer task's state machine. The hosting application runs the
//! asynchronous loop — awaiting records, calling the writer — and asks
//! `step` what to do after each outcome; every decision lives here.

use vstd::prelude::*;
use crate::record::Record;

verus! {

/// Where the consumer task stands in its life.
#[derive(Clone, Copy, Debug, PartialEq, Eq, Structural)]
pub enum Phase {
    /// Created; the writer has not been prepared yet.
    Starting,
    /// Awaiting records and writing each one as it arrives.
    Running,
    /// The channel closed with nothing left; the writer is being released.
    Draining,
    /// Finished; nothing happens any more.
    Terminated,
}

/// What the hosting loop reports back to the state machine.
#[derive(Clone, Copy, Debug, PartialEq, Eq, Structural)]
pub enum Event {
    /// The writer's preparation finished, successfully or not.
    Prepared(bool),
    /// A record arrived on the channel.
    Received(Record),
    /// A write finished, successfully or not.
    Wrote(bool),
    /// The channel closed: every send handle was dropped and no
    /// records remain.
    Closed,
    /// The writer's release finished, successfully or not.
    Finalized(bool),
}

/// What the hosting loop must do next.
#[derive(Clone, Copy, Debug, PartialEq, Eq, Structural)]
pub enum Action {
    /// Call the writer's `init`.
    Prepare,
    /// Await the next record or the channel's close.
    AwaitRecord,
    /// Call the writer's `write` with this record.
    Write(Record),
    /// Call the writer's `close`.
    Finalize,
    /// Stop the loop.
    Stop,
}

/// The transition table. Preparation failure is non-fatal: the task
/// proceeds to its write loop either way. A failed write never aborts
/// the task — the next successful write supersedes it. Only a closed
/// channel leads to finalizing, and a terminated task stays
/// terminated. An event that its phase cannot produce changes nothing
/// and stops the loop.
pub open spec fn spec_step(phase: Phase, event: Event) -> (Phase, Action) {
    match (phase, event) {
        (Phase::Starting, Event::Prepared(_)) => (Phase::Running, Action::AwaitRecord),
        (Phase::Running, Event::Received(rec)) => (Phase::Running, Action::Write(rec)),
        (Phase::Running, Event::Wrote(_)) => (Phase::Running, Action::AwaitRecord),
        (Phase::Running, Event::Closed) => (Phase::Draining, Action::Finalize),
        (Phase::Draining, Event::Finalized(_)) => (Phase::Terminated, Action::Stop),
        (_, _) => (phase, Action::Stop),
    }
}

/// A fresh task: not yet prepared, and the first thing the hosting
/// loop does is prepare the writer.
pub fn initial() -> (r: (Phase, Action))
    ensures
        r == (Phase::Starting, Action::Prepare),
{
    (Phase::Starting, Action::Prepare)
}

/// One decision of the consumer task.
pub fn step(phase: &Phase, event: &Event) -> (r: (Phase, Action))
    ensures
        r == spec_step(*phase, *event),
{
    match (phase, event) {
        (Phase::Starting, Event::Prepared(_)) => (Phase::Running, Action::AwaitRecord),
        (Phase::Running, Event::Received(rec)) => (Phase::Running, Action::Write(*rec)),
        (Phase::Running, Event::Wrote(_)) => (Phase::Running, Action::AwaitRecord),
        (Phase::Running, Event::Closed) => (Phase::Draining, Action::Finalize),
        (Phase::Draining, Event::Finalized(_)) => (Phase::Terminated, Action::Stop),
        (_, _) => (*phase, Action::Stop),
    }
}

/// A record is only ever written while the task is running, and only
/// the record that just arrived: the writer sees records in arrival
/// order, one per receipt.
pub proof fn lemma_write_only_when_running(phase: Phase, event: Event, rec: Record)
    requires
        spec_step(phase, event).1 == Action::Write(rec),
    ensures
        phase == Phase::Running,
        event == Event::Received(rec),
        spec_step(phase, event).0 == Phase::Running,
{
}

/// Termination is final: no event moves a terminated task, so a second
/// consumer never starts over the same writer.
pub proof fn lemma_terminated_is_final(event: Event)
    ensures
        spec_step(Phase::Terminated, event).0 == Phase::Terminated,
{
}

} // verus!
