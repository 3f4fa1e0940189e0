use vstd::prelude::*;

verus! {

/// Tracks memory use against a quota and signals back-off under pressure.
#[derive(Debug)]
pub struct RamClient {
    quota_bytes: u64,
    used_bytes: u64,
    pressure_backoff: bool,
}

impl RamClient {
    pub closed spec fn spec_quota(&self) -> u64 {
        self.quota_bytes
    }

    pub closed spec fn spec_used(&self) -> u64 {
        self.used_bytes
    }

    pub closed spec fn spec_backoff(&self) -> bool {
        self.pressure_backoff
    }

    /// A quota of 512 MiB, nothing used, no pressure.
    pub fn new() -> (c: Self)
        ensures
            c.spec_quota() == 512 * 1024 * 1024,
            c.spec_used() == 0,
            !c.spec_backoff(),
    {
        RamClient { quota_bytes: 512 * 1024 * 1024, used_bytes: 0, pressure_backoff: false }
    }

    /// Takes `size` bytes if they fit the quota; otherwise refuses and
    /// signals back-off.
    pub fn allocate(&mut self, size: u64) -> (ok: bool)
        ensures
            ok == (old(self).spec_used() + size <= old(self).spec_quota()),
            final(self).spec_quota() == old(self).spec_quota(),
            ok ==> final(self).spec_used() == old(self).spec_used() + size && final(self).spec_backoff() == old(self).spec_backoff(),
            !ok ==> final(self).spec_used() == old(self).spec_used() && final(self).spec_backoff(),
    {
        if size > self.quota_bytes || self.used_bytes > self.quota_bytes - size {
            self.pressure_backoff = true;
            return false;
        }
        self.used_bytes = self.used_bytes + size;
        true
    }

    /// Gives back `size` bytes (use never drops below zero); pressure ends
    /// once use is below half the quota.
    pub fn deallocate(&mut self, size: u64)
        ensures
            final(self).spec_quota() == old(self).spec_quota(),
            final(self).spec_used() == if size > old(self).spec_used() { 0 } else { (old(self).spec_used() - size) as u64 },
            final(self).spec_backoff() == if final(self).spec_used() < old(self).spec_quota() / 2 { false } else { old(self).spec_backoff() },
    {
        if size > self.used_bytes {
            self.used_bytes = 0;
        } else {
            self.used_bytes = self.used_bytes - size;
        }
        if self.used_bytes < self.quota_bytes / 2 {
            self.pressure_backoff = false;
        }
    }

    pub fn used(&self) -> (n: u64)
        ensures
            n == self.spec_used(),
    {
        self.used_bytes
    }

    /// Bytes left under the quota.
    pub fn available(&self) -> (n: u64)
        requires
            self.spec_used() <= self.spec_quota(),
        ensures
            n == self.spec_quota() - self.spec_used(),
    {
        self.quota_bytes - self.used_bytes
    }

    pub fn quota(&self) -> (n: u64)
        ensures
            n == self.spec_quota(),
    {
        self.quota_bytes
    }

    /// Sets the quota to `quota_mb` mebibytes.
    pub fn set_quota(&mut self, quota_mb: u64)
        requires
            quota_mb * 1024 * 1024 <= u64::MAX,
        ensures
            final(self).spec_quota() == quota_mb * 1024 * 1024,
            final(self).spec_used() == old(self).spec_used(),
            final(self).spec_backoff() == old(self).spec_backoff(),
    {
        self.quota_bytes = quota_mb * 1024 * 1024;
    }

    pub fn under_pressure(&self) -> (r: bool)
        ensures
            r == self.spec_backoff(),
    {
        self.pressure_backoff
    }

    /// Releases everything and ends pressure.
    pub fn free(&mut self)
        ensures
            final(self).spec_used() == 0,
            !final(self).spec_backoff(),
            final(self).spec_quota() == old(self).spec_quota(),
    {
        self.used_bytes = 0;
        self.pressure_backoff = false;
    }
}

impl Default for RamClient {
    fn default() -> (c: Self)
        ensures
            c.spec_quota() == 512 * 1024 * 1024,
            c.spec_used() == 0,
            !c.spec_backoff(),
    {
        Self::new()
    }
}

} // verus!
