use vstd::prelude::*;

verus! {

/// Which safety measures are in force.
#[derive(Debug, Clone, Copy, PartialEq, Eq, Structural)]
pub struct SafetyPolicy {
    pub require_clean_journal: bool,
    pub force_flush_on_eject: bool,
    pub reject_corrupt_records: bool,
    pub read_only_fallback: bool,
    pub handle_surprise_removal: bool,
}

impl Default for SafetyPolicy {
    /// Every measure in force.
    fn default() -> (p: Self)
        ensures
            p == (SafetyPolicy {
                require_clean_journal: true,
                force_flush_on_eject: true,
                reject_corrupt_records: true,
                read_only_fallback: true,
                handle_surprise_removal: true,
            }),
    {
        SafetyPolicy {
            require_clean_journal: true,
            force_flush_on_eject: true,
            reject_corrupt_records: true,
            read_only_fallback: true,
            handle_surprise_removal: true,
        }
    }
}

/// Tracks whether the device may be ejected.
#[derive(Debug)]
pub struct SafetyMonitor {
    safe_to_eject: bool,
    journal_dirty: bool,
    corruption_detected: bool,
    policy: SafetyPolicy,
}

impl SafetyMonitor {
    pub closed spec fn spec_marked_safe(&self) -> bool {
        self.safe_to_eject
    }

    pub closed spec fn spec_dirty(&self) -> bool {
        self.journal_dirty
    }

    pub closed spec fn spec_corrupt(&self) -> bool {
        self.corruption_detected
    }

    pub closed spec fn spec_policy(&self) -> SafetyPolicy {
        self.policy
    }

    /// Ejecting is safe when it was marked safe, the journal is clean and
    /// no corruption was detected.
    pub open spec fn spec_safe_to_eject(&self) -> bool {
        self.spec_marked_safe() && !self.spec_dirty() && !self.spec_corrupt()
    }

    /// Not marked safe, clean, no corruption, the default policy.
    pub fn new() -> (m: Self)
        ensures
            !m.spec_marked_safe(),
            !m.spec_dirty(),
            !m.spec_corrupt(),
            m.spec_policy() == (SafetyPolicy {
                require_clean_journal: true,
                force_flush_on_eject: true,
                reject_corrupt_records: true,
                read_only_fallback: true,
                handle_surprise_removal: true,
            }),
    {
        SafetyMonitor { safe_to_eject: false, journal_dirty: false, corruption_detected: false, policy: SafetyPolicy::default() }
    }

    pub fn mark_safe_to_eject(&mut self)
        ensures
            final(self).spec_marked_safe(),
            final(self).spec_dirty() == old(self).spec_dirty(),
            final(self).spec_corrupt() == old(self).spec_corrupt(),
            final(self).spec_policy() == old(self).spec_policy(),
    {
        self.safe_to_eject = true;
    }

    pub fn mark_unsafe_to_eject(&mut self)
        ensures
            !final(self).spec_marked_safe(),
            final(self).spec_dirty() == old(self).spec_dirty(),
            final(self).spec_corrupt() == old(self).spec_corrupt(),
            final(self).spec_policy() == old(self).spec_policy(),
    {
        self.safe_to_eject = false;
    }

    /// Safe to eject: marked safe, clean journal, no corruption.
    pub fn is_safe_to_eject(&self) -> (r: bool)
        ensures
            r == self.spec_safe_to_eject(),
    {
        if self.journal_dirty {
            return false;
        }
        if self.corruption_detected {
            return false;
        }
        self.safe_to_eject
    }

    pub fn mark_journal_dirty(&mut self)
        ensures
            final(self).spec_dirty(),
            final(self).spec_marked_safe() == old(self).spec_marked_safe(),
            final(self).spec_corrupt() == old(self).spec_corrupt(),
            final(self).spec_policy() == old(self).spec_policy(),
    {
        self.journal_dirty = true;
    }

    pub fn mark_journal_clean(&mut self)
        ensures
            !final(self).spec_dirty(),
            final(self).spec_marked_safe() == old(self).spec_marked_safe(),
            final(self).spec_corrupt() == old(self).spec_corrupt(),
            final(self).spec_policy() == old(self).spec_policy(),
    {
        self.journal_dirty = false;
    }

    pub fn is_journal_dirty(&self) -> (r: bool)
        ensures
            r == self.spec_dirty(),
    {
        self.journal_dirty
    }

    /// Records detected corruption; it is never cleared.
    pub fn mark_corruption_detected(&mut self)
        ensures
            final(self).spec_corrupt(),
            final(self).spec_marked_safe() == old(self).spec_marked_safe(),
            final(self).spec_dirty() == old(self).spec_dirty(),
            final(self).spec_policy() == old(self).spec_policy(),
    {
        self.corruption_detected = true;
    }

    pub fn is_corruption_detected(&self) -> (r: bool)
        ensures
            r == self.spec_corrupt(),
    {
        self.corruption_detected
    }

    pub fn set_policy(&mut self, policy: SafetyPolicy)
        ensures
            final(self).spec_policy() == policy,
            final(self).spec_marked_safe() == old(self).spec_marked_safe(),
            final(self).spec_dirty() == old(self).spec_dirty(),
            final(self).spec_corrupt() == old(self).spec_corrupt(),
    {
        self.policy = policy;
    }

    pub fn policy(&self) -> (p: SafetyPolicy)
        ensures
            p == self.spec_policy(),
    {
        self.policy
    }
}

impl Default for SafetyMonitor {
    fn default() -> (m: Self)
        ensures
            !m.spec_marked_safe(),
            !m.spec_dirty(),
            !m.spec_corrupt(),
    {
        Self::new()
    }
}

/// Once corruption is detected, no later marking makes ejecting safe.
pub proof fn lemma_corruption_blocks_eject(m: SafetyMonitor)
    requires
        m.spec_corrupt(),
    ensures
        !m.spec_safe_to_eject(),
{
}

} // verus!
