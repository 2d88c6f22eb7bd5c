//! The load rule and its one-shot delivery. A loader runs once at
//! startup: the hosting application opens or creates the destination
//! and reads its bytes; this module says what those bytes mean — a
//! parse failure is downgraded to the default value, never surfaced —
//! and how the application loop installs the delivered value.

use vstd::prelude::*;
use crate::codec::{lemma_encode_decode, spec_decode, spec_encode};
use crate::record::Record;
use crate::sink::channel_try_recv;

verus! {

/// What a load yields from the destination's bytes: the parsed record,
/// or the type's default when the content does not parse.
pub open spec fn spec_load(bytes: Seq<u8>) -> Record {
    match spec_decode(bytes) {
        Some(rec) => rec,
        None => Record::spec_default(),
    }
}

/// Turns the destination's full content into the loaded value. On a
/// parse failure the default is substituted instead of an error.
pub fn load_record(bytes: &Vec<u8>) -> (r: Record)
    ensures
        r == spec_load(bytes@),
{
    match crate::codec::decode(bytes) {
        Some(rec) => rec,
        None => Record::default(),
    }
}

/// Default on missing: a destination the load just created is empty,
/// parses to nothing, and so delivers the default value — no visible
/// error.
pub proof fn lemma_default_on_missing()
    ensures
        spec_load(Seq::<u8>::empty()) == Record::spec_default(),
{
}

/// Default on corrupt: whenever the destination's content does not
/// parse, the load delivers the default value rather than failing.
pub proof fn lemma_default_on_corrupt(bytes: Seq<u8>)
    requires
        spec_decode(bytes) is None,
    ensures
        spec_load(bytes) == Record::spec_default(),
{
}

/// Turns the whole outcome of reading the destination into the loaded
/// value: parsed-or-default content when the read delivered bytes, and
/// the default again when the read itself failed — a load never
/// surfaces an error.
pub fn load_outcome(read: Option<Vec<u8>>) -> (r: Record)
    ensures
        r == (match read {
            Some(bytes) => spec_load(bytes@),
            None => Record::spec_default(),
        }),
{
    match read {
        Some(bytes) => load_record(&bytes),
        None => Record::default(),
    }
}

/// Save then load: a destination holding a flushed write's bytes is
/// recovered by the next load — the loaded value is the record that
/// was written, never the default and never an error.
pub proof fn lemma_save_then_load(rec: Record)
    ensures
        spec_load(spec_encode(rec)) == rec,
{
    lemma_encode_decode(rec);
}

/// The application loop's once-per-tick, non-blocking poll of the
/// one-shot load delivery: the first time a value is available it is
/// installed into the state slot; otherwise the slot is untouched.
/// Returns the value it installed, if any.
pub fn install_loaded(slot: &mut Option<Record>, rx: &async_channel::Receiver<Record>) -> (r:
    Option<Record>)
    ensures
        r matches Some(rec) ==> *final(slot) == Some(rec),
        r is None ==> *final(slot) == *old(slot),
{
    match channel_try_recv(rx) {
        Some(rec) => {
            install(slot, rec);
            Some(rec)
        },
        None => None,
    }
}

/// Installs a delivered value as the current application state.
pub fn install(slot: &mut Option<Record>, rec: Record)
    ensures
        *final(slot) == Some(rec),
{
    *slot = Some(rec);
}

} // verus!
