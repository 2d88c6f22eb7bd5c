//! The writer capability: the interface a storage backend implements,
//! an in-memory backend that models overwrite-in-place, and the drain
//! loop that gives the sink its last-write-wins guarantee.

use vstd::prelude::*;
use crate::codec::{lemma_encode_decode, spec_decode, spec_encode};
use crate::error::SinkError;
use crate::record::Record;

verus! {

/// What a storage backend promises. A backend owns its storage handle
/// and any buffering state; only one consumer task ever calls into it.
///
/// A failed `write` promises nothing about the content left behind:
/// overwrite-in-place is not atomic, and a later successful write is
/// what supersedes the damage.
pub trait IoWriter: Sized {
    /// The bytes the backend currently holds as the destination's content.
    spec fn storage(&self) -> Seq<u8>;

    /// Whether the backend has been prepared and accepts writes.
    spec fn ready(&self) -> bool;

    /// Prepares the backend: opens or creates the destination. Opening
    /// is non-destructive, so existing content is preserved whether or
    /// not preparation succeeds.
    fn init(&mut self) -> (r: Result<(), SinkError>)
        ensures
            final(self).storage() == old(self).storage(),
            r is Ok ==> final(self).ready(),
    ;

    /// Makes the destination hold exactly `rec`'s serialized bytes:
    /// no residue of earlier, longer content survives a success.
    fn write(&mut self, rec: &Record) -> (r: Result<(), SinkError>)
        requires
            old(self).ready(),
        ensures
            final(self).ready(),
            r is Ok ==> final(self).storage() == spec_encode(*rec),
    ;

    /// Pushes buffered bytes to durable storage, content unchanged.
    fn flush(&mut self) -> (r: Result<(), SinkError>)
        requires
            old(self).ready(),
        ensures
            final(self).ready(),
            final(self).storage() == old(self).storage(),
    ;

    /// Releases the backend once the channel has closed.
    fn close(&mut self) -> (r: Result<(), SinkError>)
        ensures
            final(self).storage() == old(self).storage(),
    ;
}

/// An in-memory writer: the destination is a byte buffer. It realizes
/// the capability's overwrite-in-place contract exactly and stands in
/// for the file backend wherever no file is wanted.
pub struct MemorySink {
    prepared: bool,
    bytes: Vec<u8>,
}

impl MemorySink {
    /// An empty destination, as after creating a missing file.
    pub fn new() -> (r: MemorySink)
        ensures
            !r.ready(),
            r.storage() == Seq::<u8>::empty(),
    {
        MemorySink { prepared: false, bytes: Vec::new() }
    }

    /// A destination that already holds `bytes`.
    pub fn with_content(bytes: Vec<u8>) -> (r: MemorySink)
        ensures
            !r.ready(),
            r.storage() == bytes@,
    {
        MemorySink { prepared: false, bytes }
    }

    /// The destination's current content, to read back after a drain.
    pub fn content(&self) -> (r: &Vec<u8>)
        ensures
            r@ == self.storage(),
    {
        &self.bytes
    }
}

impl IoWriter for MemorySink {
    closed spec fn storage(&self) -> Seq<u8> {
        self.bytes@
    }

    closed spec fn ready(&self) -> bool {
        self.prepared
    }

    /// Preparing a buffer cannot fail.
    fn init(&mut self) -> (r: Result<(), SinkError>)
        ensures
            r is Ok,
            final(self).ready(),
            final(self).storage() == old(self).storage(),
    {
        self.prepared = true;
        Ok(())
    }

    /// A buffered write cannot fail: the buffer becomes exactly the
    /// record's bytes.
    fn write(&mut self, rec: &Record) -> (r: Result<(), SinkError>)
        ensures
            r is Ok,
            final(self).storage() == spec_encode(*rec),
    {
        self.bytes = crate::codec::encode(rec);
        Ok(())
    }

    fn flush(&mut self) -> (r: Result<(), SinkError>)
        ensures
            r is Ok,
            *final(self) == *old(self),
    {
        Ok(())
    }

    fn close(&mut self) -> (r: Result<(), SinkError>)
        ensures
            r is Ok,
            *final(self) == *old(self),
    {
        Ok(())
    }
}

/// Writes a batch of records in arrival order, never aborting: a
/// failed write is skipped and the next success supersedes it, since
/// the semantics are last write wins. Returns one success flag per
/// record.
pub fn drain<W: IoWriter>(w: &mut W, records: &Vec<Record>) -> (flags: Vec<bool>)
    requires
        old(w).ready(),
    ensures
        final(w).ready(),
        flags@.len() == records@.len(),
        records@.len() == 0 ==> final(w).storage() == old(w).storage(),
        records@.len() > 0 && flags@.last() ==> final(w).storage() == spec_encode(
            records@.last(),
        ),
{
    let mut flags: Vec<bool> = Vec::new();
    let mut i: usize = 0;
    while i < records.len()
        invariant
            w.ready(),
            i <= records@.len(),
            flags@.len() == i,
            i == 0 ==> w.storage() == old(w).storage(),
            i > 0 && flags@[i - 1] ==> w.storage() == spec_encode(records@[i as int - 1]),
        decreases records@.len() - i,
    {
        let outcome = w.write(&records[i]);
        let ok = match outcome {
            Ok(()) => true,
            Err(_) => false,
        };
        flags.push(ok);
        i = i + 1;
    }
    flags
}

/// Last write wins: once a drain of a non-empty batch ends with a
/// successful write, the destination holds exactly the last record's
/// serialized bytes — the same byte length, no residue — and it
/// deserializes to that record.
pub proof fn lemma_last_write_wins(records: Seq<Record>, content: Seq<u8>)
    requires
        records.len() > 0,
        content == spec_encode(records.last()),
    ensures
        spec_decode(content) == Some(records.last()),
        content.len() == spec_encode(records.last()).len(),
{
    lemma_encode_decode(records.last());
}

/// No partial records: after any successfully flushed write, the
/// destination's content is the complete serialized form of that one
/// record and parses back to it — never a mixture of two writes'
/// bytes.
pub proof fn lemma_no_partial_records(rec: Record, content: Seq<u8>)
    requires
        content == spec_encode(rec),
    ensures
        spec_decode(content) == Some(rec),
        content.len() == spec_encode(rec).len(),
{
    lemma_encode_decode(rec);
}

} // verus!
