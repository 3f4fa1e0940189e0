use vstd::prelude::*;

use crate::util::text::str_to_string;

verus! {

/// A block of memory set aside for a purpose.
#[derive(Debug, Clone)]
pub struct RamAllocation {
    pub bytes: u64,
    pub purpose: String,
}

impl RamAllocation {
    pub fn new(bytes: u64, purpose: &str) -> (a: Self)
        ensures
            a.bytes == bytes,
            a.purpose@ == purpose@,
    {
        RamAllocation { bytes, purpose: str_to_string(purpose) }
    }
}

} // verus!
