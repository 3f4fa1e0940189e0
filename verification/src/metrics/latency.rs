use vstd::prelude::*;

verus! {

/// The integer part of a latency record: how many latencies were recorded
/// and the least and greatest of them. Before any is recorded the least is
/// `u64::MAX` and the greatest 0.
#[derive(Debug, Clone, Copy)]
pub struct LatencyRange {
    pub min_us: u64,
    pub max_us: u64,
    pub count: u64,
}

impl LatencyRange {
    /// The range when nothing was recorded, or else one whose bounds hold
    /// some recorded value each: the least is no greater than the greatest.
    pub open spec fn spec_consistent(self) -> bool {
        &&& self.count == 0 ==> self.min_us == u64::MAX && self.max_us == 0
        &&& self.count > 0 ==> self.min_us <= self.max_us
    }

    /// No latency recorded yet.
    pub fn new() -> (r: Self)
        ensures
            r.min_us == u64::MAX,
            r.max_us == 0,
            r.count == 0,
            r.spec_consistent(),
    {
        LatencyRange { min_us: u64::MAX, max_us: 0, count: 0 }
    }

    /// Records one latency: one more is counted, and the bounds widen to
    /// take it in.
    pub fn record(&mut self, elapsed_us: u64)
        requires
            old(self).count < u64::MAX,
        ensures
            final(self).count == old(self).count + 1,
            final(self).min_us == if elapsed_us < old(self).min_us { elapsed_us } else { old(self).min_us },
            final(self).max_us == if elapsed_us > old(self).max_us { elapsed_us } else { old(self).max_us },
            final(self).min_us <= elapsed_us <= final(self).max_us,
            old(self).spec_consistent() ==> final(self).spec_consistent(),
    {
        self.count = self.count + 1;
        if elapsed_us < self.min_us {
            self.min_us = elapsed_us;
        }
        if elapsed_us > self.max_us {
            self.max_us = elapsed_us;
        }
    }

    /// A copy of the range as it stands.
    pub fn snapshot(&self) -> (r: Self)
        ensures
            r == *self,
    {
        *self
    }
}

} // verus!
