//! The change watcher. Once per application tick it compares the
//! current state against the previous tick's snapshot and, on change,
//! clones the state into the sink. It fires on every detected change;
//! any throttling is the calling application's concern.

use vstd::prelude::*;
use crate::record::Record;
use crate::sink::IoSender;

verus! {

/// Whether the state changed since the previous tick: true when there
/// was no previous snapshot, or the snapshot differs.
pub fn changed(prev: Option<Record>, cur: Record) -> (r: bool)
    ensures
        r == (match prev {
            Some(p) => p != cur,
            None => true,
        }),
{
    match prev {
        Some(p) => !(p == cur),
        None => true,
    }
}

/// One tick of the change watcher: on change, send the current state
/// through the sink — fire and forget — then remember it as the new
/// previous snapshot.
pub fn sync_file(sender: &IoSender, prev: &mut Option<Record>, cur: Record) -> (sent: bool)
    ensures
        *final(prev) == Some(cur),
        sent == (match *old(prev) {
            Some(p) => p != cur,
            None => true,
        }),
{
    let is_changed = changed(*prev, cur);
    if is_changed {
        sender.send(cur);
    }
    *prev = Some(cur);
    is_changed
}

} // verus!
