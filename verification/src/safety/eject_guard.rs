use vstd::prelude::*;
use vstd::string::*;

use crate::common::error::VumError;
use crate::common::result::VumResult;
use crate::util::number::{decimal_string, spec_decimal};

verus! {

/// Decides whether the device may be ejected.
#[derive(Debug)]
pub struct EjectGuard {
    safe: bool,
}

/// The text of the refusal when the journal is dirty.
pub open spec fn spec_dirty_journal_text(dirty_bytes: u64) -> Seq<char> {
    "Journal is dirty with "@ + spec_decimal(dirty_bytes as nat) + " bytes pending"@
}

/// The text of the refusal when bytes await writeback.
pub open spec fn spec_dirty_bytes_text(dirty_bytes: u64) -> Seq<char> {
    spec_decimal(dirty_bytes as nat) + " dirty bytes pending writeback"@
}

impl EjectGuard {
    pub closed spec fn spec_safe(&self) -> bool {
        self.safe
    }

    /// A guard that has not yet judged the device safe.
    pub fn new() -> (g: Self)
        ensures
            !g.spec_safe(),
    {
        EjectGuard { safe: false }
    }

    /// Ejecting is safe only with a clean journal and no dirty bytes; the
    /// guard remembers the verdict.
    pub fn check(&mut self, journal_dirty: bool, dirty_bytes: u64) -> (r: VumResult<()>)
        ensures
            r is Ok <==> (!journal_dirty && dirty_bytes == 0),
            final(self).spec_safe() == r is Ok,
            journal_dirty ==> (r matches Err(VumError::UnsafeToEject(m)) && m@ == spec_dirty_journal_text(dirty_bytes)),
            !journal_dirty && dirty_bytes > 0 ==> (r matches Err(VumError::UnsafeToEject(m)) && m@ == spec_dirty_bytes_text(dirty_bytes)),
    {
        if journal_dirty {
            self.safe = false;
            let mut m = String::from_str("Journal is dirty with ");
            let n = decimal_string(dirty_bytes);
            m.append(n.as_str());
            m.append(" bytes pending");
            return Err(VumError::UnsafeToEject(m));
        }
        if dirty_bytes > 0 {
            self.safe = false;
            let mut m = decimal_string(dirty_bytes);
            m.append(" dirty bytes pending writeback");
            return Err(VumError::UnsafeToEject(m));
        }
        self.safe = true;
        Ok(())
    }

    /// Declares the device safe regardless of state.
    pub fn override_safety(&mut self)
        ensures
            final(self).spec_safe(),
    {
        self.safe = true;
    }

    /// The last verdict.
    pub fn is_safe(&self) -> (r: bool)
        ensures
            r == self.spec_safe(),
    {
        self.safe
    }
}

impl Default for EjectGuard {
    fn default() -> (g: Self)
        ensures
            !g.spec_safe(),
    {
        Self::new()
    }
}

} // verus!
