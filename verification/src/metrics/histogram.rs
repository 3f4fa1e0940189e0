use vstd::prelude::*;

verus! {

/// The bucket a value falls in: the first bucket, from `i` on, whose upper
/// bound exceeds it, or the last bucket (past all bounds).
pub open spec fn spec_bucket_from(bounds: Seq<u64>, value: u64, i: nat) -> nat
    decreases bounds.len() - i,
{
    if i >= bounds.len() {
        bounds.len()
    } else if value < bounds[i as int] {
        i
    } else {
        spec_bucket_from(bounds, value, i + 1)
    }
}

/// The bucket of `value`: the index of the first bound above it, or one
/// past the last bound.
pub open spec fn spec_bucket_index(bounds: Seq<u64>, value: u64) -> nat {
    spec_bucket_from(bounds, value, 0)
}

/// The value standing for bucket `i` when averaging: the middle of its
/// bounds, and twice its lower bound for an unbounded bucket.
pub open spec fn spec_bucket_mid(bounds: Seq<u64>, i: int) -> nat {
    let prev: nat = if i == 0 { 0 } else { bounds[i - 1] as nat };
    let bound: nat = if i < bounds.len() { bounds[i] as nat } else { u64::MAX as nat };
    if bound == u64::MAX {
        prev * 2
    } else {
        (prev + bound) / 2
    }
}

/// The sum of the first `n` counts, each weighted by its bucket's middle.
pub open spec fn spec_weighted_sum(bounds: Seq<u64>, counts: Seq<u64>, n: nat) -> nat
    decreases n,
{
    if n == 0 {
        0
    } else {
        spec_weighted_sum(bounds, counts, (n - 1) as nat) + spec_bucket_mid(bounds, n - 1) * counts[n - 1] as nat
    }
}

/// The sum of the first `n` counts.
pub open spec fn spec_count_sum(counts: Seq<u64>, n: nat) -> nat
    decreases n,
{
    if n == 0 {
        0
    } else {
        spec_count_sum(counts, (n - 1) as nat) + counts[n - 1] as nat
    }
}

proof fn lemma_weighted_monotone(bounds: Seq<u64>, counts: Seq<u64>, n: nat, m: nat)
    requires
        n <= m,
    ensures
        spec_weighted_sum(bounds, counts, n) <= spec_weighted_sum(bounds, counts, m),
    decreases m,
{
    if n < m {
        lemma_weighted_monotone(bounds, counts, n, (m - 1) as nat);
        let t = spec_bucket_mid(bounds, m - 1) * counts[m - 1] as nat;
        assert(t >= 0);
    }
}

proof fn lemma_count_sum_bound(counts: Seq<u64>, n: nat)
    ensures
        spec_count_sum(counts, n) <= n * u64::MAX,
    decreases n,
{
    if n > 0 {
        lemma_count_sum_bound(counts, (n - 1) as nat);
        assert((n - 1) * u64::MAX + u64::MAX == n * u64::MAX) by (nonlinear_arith);
    }
}

/// Counts of latencies by bucket; the buckets are split at the given bounds.
pub struct LatencyHistogram {
    buckets: Vec<u64>,
    bounds: Vec<u64>,
}

impl LatencyHistogram {
    /// The bucket bounds.
    pub closed spec fn spec_bounds(&self) -> Seq<u64> {
        self.bounds@
    }

    /// The count of each bucket.
    pub closed spec fn spec_counts(&self) -> Seq<u64> {
        self.buckets@
    }

    /// One bucket more than there are bounds.
    pub open spec fn wf(&self) -> bool {
        self.spec_counts().len() == self.spec_bounds().len() + 1
    }

    /// A histogram with empty buckets below, between and above `bounds`.
    pub fn new(bounds: Vec<u64>) -> (h: Self)
        requires
            bounds@.len() < usize::MAX,
        ensures
            h.wf(),
            h.spec_bounds() == bounds@,
            h.spec_counts() == Seq::new(bounds@.len() + 1, |i: int| 0u64),
    {
        let len = bounds.len() + 1;
        let mut buckets: Vec<u64> = Vec::new();
        let mut i: usize = 0;
        while i < len
            invariant
                i <= len,
                buckets@ == Seq::new(i as nat, |k: int| 0u64),
            decreases len - i,
        {
            buckets.push(0);
            i = i + 1;
            assert(buckets@ =~= Seq::new(i as nat, |k: int| 0u64));
        }
        LatencyHistogram { buckets, bounds }
    }

    /// Counts `value_us` in its bucket (the count wraps around at the
    /// integer's limit, as an atomic counter does).
    pub fn record(&mut self, value_us: u64)
        requires
            old(self).wf(),
        ensures
            final(self).wf(),
            final(self).spec_bounds() == old(self).spec_bounds(),
            final(self).spec_counts() == old(self).spec_counts().update(
                spec_bucket_index(old(self).spec_bounds(), value_us) as int,
                old(self).spec_counts()[spec_bucket_index(old(self).spec_bounds(), value_us) as int].wrapping_add(1),
            ),
    {
        let mut i: usize = 0;
        while i < self.bounds.len() && !(value_us < self.bounds[i])
            invariant
                i <= self.bounds@.len(),
                spec_bucket_index(self.bounds@, value_us) == spec_bucket_from(self.bounds@, value_us, i as nat),
            decreases self.bounds@.len() - i,
        {
            i = i + 1;
        }
        assert(spec_bucket_from(self.bounds@, value_us, i as nat) == i);
        let c = self.buckets[i];
        self.buckets.set(i, c.wrapping_add(1));
    }

    /// The count of each bucket.
    pub fn snapshot(&self) -> (r: Vec<u64>)
        ensures
            r@ == self.spec_counts(),
    {
        self.buckets.clone()
    }

    /// Empties every bucket.
    pub fn reset(&mut self)
        requires
            old(self).wf(),
        ensures
            final(self).wf(),
            final(self).spec_bounds() == old(self).spec_bounds(),
            final(self).spec_counts() == Seq::new(old(self).spec_counts().len(), |i: int| 0u64),
    {
        let n = self.buckets.len();
        let mut i: usize = 0;
        while i < n
            invariant
                i <= n,
                n == self.buckets@.len(),
                self.bounds@ == old(self).bounds@,
                forall|k: int| 0 <= k < i ==> self.buckets@[k] == 0,
            decreases n - i,
        {
            self.buckets.set(i, 0);
            i = i + 1;
        }
        assert(self.buckets@ =~= Seq::new(n as nat, |i: int| 0u64));
    }

    /// How many values were counted.
    pub fn total_count(&self) -> (r: u128)
        requires
            self.wf(),
        ensures
            r == spec_count_sum(self.spec_counts(), self.spec_counts().len()),
    {
        let n = self.buckets.len();
        let mut total: u128 = 0;
        let mut i: usize = 0;
        while i < n
            invariant
                i <= n,
                n == self.buckets@.len(),
                total == spec_count_sum(self.buckets@, i as nat),
            decreases n - i,
        {
            proof {
                lemma_count_sum_bound(self.buckets@, (i + 1) as nat);
                assert((i + 1) * u64::MAX <= usize::MAX * u64::MAX) by (nonlinear_arith)
                    requires i + 1 <= usize::MAX;
                assert(usize::MAX * u64::MAX <= u128::MAX) by (nonlinear_arith)
                    requires usize::MAX <= u64::MAX;
            }
            total = total + self.buckets[i] as u128;
            i = i + 1;
        }
        total
    }

    /// The counts weighted by their buckets' middles, summed; `None` when
    /// the sum exceeds `u128`.
    pub fn weighted_sum(&self) -> (r: Option<u128>)
        requires
            self.wf(),
        ensures
            match r {
                Some(s) => s == spec_weighted_sum(self.spec_bounds(), self.spec_counts(), self.spec_counts().len()),
                None => spec_weighted_sum(self.spec_bounds(), self.spec_counts(), self.spec_counts().len()) > u128::MAX,
            },
    {
        let n = self.buckets.len();
        let mut sum: u128 = 0;
        let mut i: usize = 0;
        while i < n
            invariant
                i <= n,
                n == self.buckets@.len(),
                n == self.bounds@.len() + 1,
                sum == spec_weighted_sum(self.bounds@, self.buckets@, i as nat),
            decreases n - i,
        {
            let prev: u64 = if i == 0 { 0 } else { self.bounds[i - 1] };
            let bound: u64 = if i < self.bounds.len() { self.bounds[i] } else { u64::MAX };
            let mid: u128 = if bound == u64::MAX {
                prev as u128 * 2
            } else {
                (prev as u128 + bound as u128) / 2
            };
            assert(mid == spec_bucket_mid(self.bounds@, i as int));
            let term = match mid.checked_mul(self.buckets[i] as u128) {
                Some(t) => t,
                None => {
                    proof {
                        lemma_weighted_monotone(self.bounds@, self.buckets@, (i + 1) as nat, n as nat);
                    }
                    return None;
                },
            };
            sum = match sum.checked_add(term) {
                Some(s) => s,
                None => {
                    proof {
                        lemma_weighted_monotone(self.bounds@, self.buckets@, (i + 1) as nat, n as nat);
                    }
                    return None;
                },
            };
            i = i + 1;
        }
        Some(sum)
    }
}

} // verus!

verus! {

proof fn lemma_bucket_from_bounds(bounds: Seq<u64>, value: u64, i: nat)
    requires
        i <= bounds.len(),
    ensures
        i <= spec_bucket_from(bounds, value, i) <= bounds.len(),
        forall|j: int| i <= j < spec_bucket_from(bounds, value, i) ==> bounds[j] <= value,
        spec_bucket_from(bounds, value, i) < bounds.len() ==> value < bounds[spec_bucket_from(bounds, value, i) as int],
    decreases bounds.len() - i,
{
    if i < bounds.len() && !(value < bounds[i as int]) {
        lemma_bucket_from_bounds(bounds, value, i + 1);
    }
}

/// A value lands in the first bucket whose upper bound lies above it: every
/// earlier bound is at most the value, and the bucket's own bound (if it
/// has one) is above it.
pub proof fn law_bucket_is_first_bound_above(bounds: Seq<u64>, value: u64)
    ensures
        spec_bucket_index(bounds, value) <= bounds.len(),
        forall|j: int| 0 <= j < spec_bucket_index(bounds, value) ==> bounds[j] <= value,
        spec_bucket_index(bounds, value) < bounds.len() ==> value < bounds[spec_bucket_index(bounds, value) as int],
{
    lemma_bucket_from_bounds(bounds, value, 0);
}

proof fn lemma_count_sum_update(counts: Seq<u64>, idx: int, n: nat)
    requires
        0 <= idx < counts.len(),
        n <= counts.len(),
        counts[idx] < u64::MAX,
    ensures
        spec_count_sum(counts.update(idx, (counts[idx] + 1) as u64), n)
            == spec_count_sum(counts, n) + (if idx < n { 1int } else { 0int }),
    decreases n,
{
    if n > 0 {
        lemma_count_sum_update(counts, idx, (n - 1) as nat);
    }
}

/// Recording a value adds exactly one to the histogram's total, unless the
/// value's bucket already holds the largest count (where it wraps).
pub proof fn law_record_adds_one(before: Seq<u64>, after: Seq<u64>, bounds: Seq<u64>, value: u64)
    requires
        before.len() == bounds.len() + 1,
        before[spec_bucket_index(bounds, value) as int] < u64::MAX,
        after == before.update(
            spec_bucket_index(bounds, value) as int,
            before[spec_bucket_index(bounds, value) as int].wrapping_add(1),
        ),
    ensures
        spec_count_sum(after, after.len()) == spec_count_sum(before, before.len()) + 1,
{
    law_bucket_is_first_bound_above(bounds, value);
    let idx = spec_bucket_index(bounds, value) as int;
    assert(before[idx].wrapping_add(1) == (before[idx] + 1) as u64);
    lemma_count_sum_update(before, idx, before.len());
}

} // verus!
