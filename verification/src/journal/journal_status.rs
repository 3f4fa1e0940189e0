use vstd::prelude::*;

verus! {

/// A summary of the journal's state.
#[derive(Debug, Clone)]
pub struct JournalStatus {
    pub dirty: bool,
    pub record_count: u64,
    pub bytes_written: u64,
    pub last_checkpoint: Option<u64>,
    pub last_clean_shutdown: bool,
    pub recovery_required: bool,
}

impl JournalStatus {
    /// Recovery is needed when it is flagged or the journal is dirty.
    pub open spec fn spec_needs_recovery(&self) -> bool {
        self.recovery_required || self.dirty
    }

    /// Healthy: clean, shut down cleanly last time, and no recovery flagged.
    pub open spec fn spec_healthy(&self) -> bool {
        !self.dirty && self.last_clean_shutdown && !self.recovery_required
    }

    /// Recovery is needed when it is flagged or the journal is dirty.
    pub fn needs_recovery(&self) -> (r: bool)
        ensures
            r == self.spec_needs_recovery(),
    {
        self.recovery_required || self.dirty
    }

    /// Healthy: clean, shut down cleanly last time, and no recovery flagged.
    pub fn healthy(&self) -> (r: bool)
        ensures
            r == self.spec_healthy(),
    {
        !self.dirty && self.last_clean_shutdown && !self.recovery_required
    }
}

/// A journal that is healthy never needs recovery; and one that needs
/// recovery is not healthy.
pub proof fn lemma_healthy_needs_no_recovery(s: JournalStatus)
    ensures
        s.spec_healthy() ==> !s.spec_needs_recovery(),
        s.spec_needs_recovery() ==> !s.spec_healthy(),
{
}

} // verus!
