use vstd::prelude::*;

verus! {

/// The last durable point of the journal, as written beside it.
#[derive(Debug, Clone, Copy, PartialEq, Eq, Structural)]
pub struct Checkpoint {
    pub timestamp: u64,
    pub record_count: u64,
    pub last_record_id: u64,
}

impl Checkpoint {
    /// A checkpoint taken at `timestamp` after the record with `last_id`.
    pub fn new(timestamp: u64, last_id: u64) -> (c: Self)
        ensures
            c == (Checkpoint { timestamp, record_count: 0, last_record_id: last_id }),
    {
        Checkpoint { timestamp, record_count: 0, last_record_id: last_id }
    }
}

} // verus!
