use vstd::prelude::*;

use crate::common::error::VumError;
use crate::common::result::VumResult;
use crate::util::number::{decimal_string, spec_decimal};
use crate::util::text::{concat_str, str_to_string};

verus! {

/// The refusal text of a request that would pass the budget.
pub open spec fn spec_quota_exceeded_text(requested: nat, max: nat) -> Seq<char> {
    "Memory quota exceeded: would use "@ + spec_decimal(requested) + " of "@ + spec_decimal(max) + " bytes"@
}

/// Use after recording `bytes` more: the sum, capped at the budget.
pub open spec fn spec_used_after_record(used: u64, max: u64, bytes: u64) -> u64 {
    if used + bytes > max { max } else { (used + bytes) as u64 }
}

/// Use after giving back `bytes`: the difference, floored at zero.
pub open spec fn spec_used_after_release(used: u64, bytes: u64) -> u64 {
    if used >= bytes { (used - bytes) as u64 } else { 0 }
}

/// A memory budget and how much of it is in use.
#[derive(Debug, Clone)]
pub struct RamQuota {
    pub max_bytes: u64,
    pub used_bytes: u64,
}

impl RamQuota {
    /// A budget of `max_mb` mebibytes, none of it used.
    pub fn new(max_mb: u64) -> (q: Self)
        requires
            max_mb * 1024 * 1024 <= u64::MAX,
        ensures
            q.max_bytes == max_mb * 1024 * 1024,
            q.used_bytes == 0,
    {
        RamQuota { max_bytes: max_mb * 1024 * 1024, used_bytes: 0 }
    }

    /// `Ok` when `additional` more bytes fit the budget; otherwise
    /// `InternalInvariantViolation`, saying that the sum would overflow, or
    /// how much would be in use against the budget.
    pub fn check(&self, additional: u64) -> (r: VumResult<()>)
        ensures
            r is Ok <==> self.used_bytes + additional <= self.max_bytes,
            self.used_bytes + additional > u64::MAX ==> (r matches Err(VumError::InternalInvariantViolation(m))
                && m@ == "Requested memory would overflow"@),
            self.max_bytes < self.used_bytes + additional <= u64::MAX ==> (r matches Err(
                VumError::InternalInvariantViolation(m),
            ) && m@ == spec_quota_exceeded_text((self.used_bytes + additional) as nat, self.max_bytes as nat)),
    {
        let requested = match self.used_bytes.checked_add(additional) {
            Some(x) => x,
            None => {
                return Err(VumError::InternalInvariantViolation(str_to_string("Requested memory would overflow")));
            },
        };
        if requested > self.max_bytes {
            let a = concat_str("Memory quota exceeded: would use ", decimal_string(requested).as_str());
            let b = concat_str(a.as_str(), " of ");
            let c = concat_str(b.as_str(), decimal_string(self.max_bytes).as_str());
            let m = concat_str(c.as_str(), " bytes");
            return Err(VumError::InternalInvariantViolation(m));
        }
        Ok(())
    }

    /// Records bytes taken; use never passes the budget.
    pub fn record(&mut self, bytes: u64)
        ensures
            final(self).max_bytes == old(self).max_bytes,
            final(self).used_bytes == spec_used_after_record(old(self).used_bytes, old(self).max_bytes, bytes),
    {
        let sum = self.used_bytes.saturating_add(bytes);
        self.used_bytes = if sum < self.max_bytes { sum } else { self.max_bytes };
    }

    /// Records bytes given back; use never drops below zero.
    pub fn release(&mut self, bytes: u64)
        ensures
            final(self).max_bytes == old(self).max_bytes,
            final(self).used_bytes == spec_used_after_release(old(self).used_bytes, bytes),
    {
        self.used_bytes = self.used_bytes.saturating_sub(bytes);
    }

    /// Bytes still available (zero when use exceeds the budget).
    pub fn available_bytes(&self) -> (n: u64)
        ensures
            n == if self.max_bytes >= self.used_bytes { self.max_bytes - self.used_bytes } else { 0 },
    {
        self.max_bytes.saturating_sub(self.used_bytes)
    }
}

/// Recording never takes use past the budget; and giving back what was
/// recorded, when the budget had room for it (as `check` reports), restores
/// the use that was there before.
pub proof fn law_quota_record_then_release(used: u64, max: u64, bytes: u64)
    ensures
        spec_used_after_record(used, max, bytes) <= max,
        used + bytes <= max ==> spec_used_after_release(spec_used_after_record(used, max, bytes), bytes) == used,
{
}

} // verus!
