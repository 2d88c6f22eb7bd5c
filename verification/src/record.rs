//! The record: the serializable value representing the entire current
//! state. Each write of a record supersedes all prior content of the
//! destination; a record has no identity beyond "latest value".

use vstd::prelude::*;

verus! {

/// A whole-state snapshot to persist: a position.
#[derive(Clone, Copy, Debug, PartialEq, Eq, Structural)]
pub struct Record {
    pub pos_x: i64,
    pub pos_y: i64,
}

impl Record {
    /// The value a load substitutes when the destination is missing or
    /// holds unparsable bytes.
    pub open spec fn spec_default() -> Record {
        Record { pos_x: 0, pos_y: 0 }
    }

    pub fn new(pos_x: i64, pos_y: i64) -> (r: Record)
        ensures
            r == (Record { pos_x, pos_y }),
    {
        Record { pos_x, pos_y }
    }
}

impl Default for Record {
    fn default() -> (r: Record)
        ensures
            r == Record::spec_default(),
    {
        Record { pos_x: 0, pos_y: 0 }
    }
}

} // verus!
