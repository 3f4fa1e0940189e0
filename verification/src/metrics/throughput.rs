use vstd::prelude::*;

use std::time::Instant;

verus! {

/// `std::time::Instant`, a reading of the monotonic clock; opaque here.
#[verifier::external_type_specification]
#[verifier::external_body]
pub struct ExInstant(std::time::Instant);

/// Calls `Instant::now`. Nothing is stated of the reading: it is the time.
#[verifier::external_body]
fn instant_now() -> Instant {
    Instant::now()
}

/// Bytes moved since a starting time.
pub struct ThroughputMetrics {
    bytes: u64,
    start_time: Instant,
}

impl ThroughputMetrics {
    /// The bytes counted.
    pub closed spec fn spec_bytes(&self) -> u64 {
        self.bytes
    }

    /// When counting started.
    pub closed spec fn spec_start(&self) -> Instant {
        self.start_time
    }

    /// No bytes yet; the clock starts now.
    pub fn new() -> (t: Self)
        ensures
            t.spec_bytes() == 0,
    {
        ThroughputMetrics { bytes: 0, start_time: instant_now() }
    }

    /// Counts `n` more bytes.
    pub fn record_bytes(&mut self, n: u64)
        requires
            old(self).spec_bytes() + n <= u64::MAX,
        ensures
            final(self).spec_bytes() == old(self).spec_bytes() + n,
    {
        self.bytes = self.bytes + n;
    }

    /// The bytes counted since the start.
    pub fn bytes(&self) -> (r: u64)
        ensures
            r == self.spec_bytes(),
    {
        self.bytes
    }

    /// When counting started.
    pub fn start_time(&self) -> (r: &Instant)
        ensures
            *r == self.spec_start(),
    {
        &self.start_time
    }

    /// Clears the count and restarts the clock.
    pub fn reset(&mut self)
        ensures
            final(self).spec_bytes() == 0,
    {
        self.bytes = 0;
        self.start_time = instant_now();
    }
}

impl Default for ThroughputMetrics {
    /// The same as `ThroughputMetrics::new`.
    fn default() -> (t: Self)
        ensures
            t.spec_bytes() == 0,
    {
        Self::new()
    }
}

} // verus!
