use vstd::prelude::*;

verus! {

/// The id that follows `id` (wrapping to 0 after `u64::MAX`).
pub open spec fn spec_id_after(id: u64) -> u64 {
    if id == u64::MAX { 0 } else { (id + 1) as u64 }
}

/// Hands out record ids for journal operations: 1, 2, 3, ... in order
/// (wrapping around after `u64::MAX`, as an atomic counter does).
#[derive(Debug)]
pub struct RecordIds {
    next_id: u64,
}

impl RecordIds {
    pub closed spec fn spec_next(&self) -> u64 {
        self.next_id
    }

    /// Ids start at 1.
    pub fn new() -> (r: Self)
        ensures
            r.spec_next() == 1,
    {
        RecordIds { next_id: 1 }
    }

    /// The id the next operation will receive.
    pub fn pending_id(&self) -> (id: u64)
        ensures
            id == self.spec_next(),
    {
        self.next_id
    }

    /// Takes the next id.
    pub fn allocate(&mut self) -> (id: u64)
        ensures
            id == old(self).spec_next(),
            final(self).spec_next() == spec_id_after(old(self).spec_next()),
    {
        let id = self.next_id;
        self.next_id = self.next_id.wrapping_add(1);
        id
    }

    /// The id of the last operation handed out (0 before any).
    pub fn last_id(&self) -> (id: u64)
        ensures
            id == if self.spec_next() == 0 { 0 } else { (self.spec_next() - 1) as u64 },
    {
        self.next_id.saturating_sub(1)
    }
}

/// Ids handed out one after another, before the counter wraps, are
/// distinct and increasing: an id taken after `n` more allocations is
/// larger by `n`.
pub proof fn lemma_ids_increase(first: u64, n: nat)
    requires
        first + n <= u64::MAX,
    ensures
        spec_ids_after(first, n) == first + n,
        n > 0 ==> first < spec_ids_after(first, n),
    decreases n,
{
    if n > 0 {
        lemma_ids_increase(first, (n - 1) as nat);
    }
}

/// The next id after `n` allocations starting at `first`.
pub open spec fn spec_ids_after(first: u64, n: nat) -> u64
    decreases n,
{
    if n == 0 {
        first
    } else {
        spec_id_after(spec_ids_after(first, (n - 1) as nat))
    }
}

} // verus!
