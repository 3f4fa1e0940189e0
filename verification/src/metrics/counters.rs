use vstd::prelude::*;

verus! {

/// The manager's event counters.
#[derive(Debug, Clone, Copy)]
pub struct MetricsCounters {
    pub bytes_read_logical: u64,
    pub bytes_read_physical: u64,
    pub bytes_written_logical: u64,
    pub bytes_written_physical: u64,
    pub cache_hits: u64,
    pub cache_misses: u64,
    pub cache_evictions: u64,
    pub flush_count: u64,
    pub flush_errors: u64,
    pub ack_buffered: u64,
    pub ack_durable: u64,
    pub eject_count: u64,
    pub unsafe_eject_blocked: u64,
    pub device_removals: u64,
    pub sbp_requests: u64,
    pub sbp_errors: u64,
    pub compression_ops: u64,
    pub decompression_ops: u64,
}

/// The counters as a metrics snapshot reports them.
#[derive(Debug, Clone, Copy)]
pub struct CounterSnapshot {
    pub cache_hit_count: u64,
    pub cache_miss_count: u64,
    pub cache_eviction_count: u64,
    pub bytes_read_logical: u64,
    pub bytes_read_physical: u64,
    pub bytes_written_logical: u64,
    pub bytes_written_physical: u64,
    pub flush_count: u64,
    pub flush_error_count: u64,
    pub ack_buffered_count: u64,
    pub ack_durable_count: u64,
    pub eject_count: u64,
    pub unsafe_eject_blocked_count: u64,
    pub device_removed_count: u64,
    pub sbp_request_count: u64,
    pub sbp_error_count: u64,
    pub compression_count: u64,
    pub decompression_count: u64,
}

impl MetricsCounters {
    /// The snapshot that reports these counters.
    pub open spec fn spec_snapshot(&self) -> CounterSnapshot {
        CounterSnapshot {
            cache_hit_count: self.cache_hits,
            cache_miss_count: self.cache_misses,
            cache_eviction_count: self.cache_evictions,
            bytes_read_logical: self.bytes_read_logical,
            bytes_read_physical: self.bytes_read_physical,
            bytes_written_logical: self.bytes_written_logical,
            bytes_written_physical: self.bytes_written_physical,
            flush_count: self.flush_count,
            flush_error_count: self.flush_errors,
            ack_buffered_count: self.ack_buffered,
            ack_durable_count: self.ack_durable,
            eject_count: self.eject_count,
            unsafe_eject_blocked_count: self.unsafe_eject_blocked,
            device_removed_count: self.device_removals,
            sbp_request_count: self.sbp_requests,
            sbp_error_count: self.sbp_errors,
            compression_count: self.compression_ops,
            decompression_count: self.decompression_ops,
        }
    }

    /// The counters, as a snapshot reports them.
    pub fn snapshot(&self) -> (r: CounterSnapshot)
        ensures
            r == self.spec_snapshot(),
            r.cache_hit_count == self.cache_hits,
            r.cache_miss_count == self.cache_misses,
            r.cache_eviction_count == self.cache_evictions,
            r.bytes_read_logical == self.bytes_read_logical,
            r.bytes_read_physical == self.bytes_read_physical,
            r.bytes_written_logical == self.bytes_written_logical,
            r.bytes_written_physical == self.bytes_written_physical,
            r.flush_count == self.flush_count,
            r.flush_error_count == self.flush_errors,
            r.ack_buffered_count == self.ack_buffered,
            r.ack_durable_count == self.ack_durable,
            r.eject_count == self.eject_count,
            r.unsafe_eject_blocked_count == self.unsafe_eject_blocked,
            r.device_removed_count == self.device_removals,
            r.sbp_request_count == self.sbp_requests,
            r.sbp_error_count == self.sbp_errors,
            r.compression_count == self.compression_ops,
            r.decompression_count == self.decompression_ops,
    {
        CounterSnapshot {
            cache_hit_count: self.cache_hits,
            cache_miss_count: self.cache_misses,
            cache_eviction_count: self.cache_evictions,
            bytes_read_logical: self.bytes_read_logical,
            bytes_read_physical: self.bytes_read_physical,
            bytes_written_logical: self.bytes_written_logical,
            bytes_written_physical: self.bytes_written_physical,
            flush_count: self.flush_count,
            flush_error_count: self.flush_errors,
            ack_buffered_count: self.ack_buffered,
            ack_durable_count: self.ack_durable,
            eject_count: self.eject_count,
            unsafe_eject_blocked_count: self.unsafe_eject_blocked,
            device_removed_count: self.device_removals,
            sbp_request_count: self.sbp_requests,
            sbp_error_count: self.sbp_errors,
            compression_count: self.compression_ops,
            decompression_count: self.decompression_ops,
        }
    }

    /// Every counter at zero.
    pub open spec fn all_zero(&self) -> bool {
        &&& self.bytes_read_logical == 0
        &&& self.bytes_read_physical == 0
        &&& self.bytes_written_logical == 0
        &&& self.bytes_written_physical == 0
        &&& self.cache_hits == 0
        &&& self.cache_misses == 0
        &&& self.cache_evictions == 0
        &&& self.flush_count == 0
        &&& self.flush_errors == 0
        &&& self.ack_buffered == 0
        &&& self.ack_durable == 0
        &&& self.eject_count == 0
        &&& self.unsafe_eject_blocked == 0
        &&& self.device_removals == 0
        &&& self.sbp_requests == 0
        &&& self.sbp_errors == 0
        &&& self.compression_ops == 0
        &&& self.decompression_ops == 0
    }

    /// All counters at zero.
    pub fn new() -> (c: Self)
        ensures
            c.all_zero(),
    {
        MetricsCounters {
            bytes_read_logical: 0,
            bytes_read_physical: 0,
            bytes_written_logical: 0,
            bytes_written_physical: 0,
            cache_hits: 0,
            cache_misses: 0,
            cache_evictions: 0,
            flush_count: 0,
            flush_errors: 0,
            ack_buffered: 0,
            ack_durable: 0,
            eject_count: 0,
            unsafe_eject_blocked: 0,
            device_removals: 0,
            sbp_requests: 0,
            sbp_errors: 0,
            compression_ops: 0,
            decompression_ops: 0,
        }
    }

    /// Cache hits plus misses, and the hits, for the hit ratio; the ratio
    /// is zero when nothing was looked up.
    pub fn lookups(&self) -> (r: (u128, u64))
        ensures
            r.0 == self.cache_hits + self.cache_misses,
            r.1 == self.cache_hits,
    {
        (self.cache_hits as u128 + self.cache_misses as u128, self.cache_hits)
    }
}

impl Default for MetricsCounters {
    /// The same as `MetricsCounters::new`.
    fn default() -> (c: Self)
        ensures
            c.all_zero(),
    {
        Self::new()
    }
}

} // verus!

verus! {

/// A snapshot reports each counter under its own name: hits, misses and
/// evictions as the cache counts, the read and written bytes, logical and
/// physical, each as itself, and every other count as the counter it names.
/// Two counter sets with different written (or read) bytes give snapshots
/// that differ there too.
pub proof fn law_snapshot_reports_each_counter(c: MetricsCounters, d: MetricsCounters)
    ensures
        c.spec_snapshot().cache_hit_count == c.cache_hits,
        c.spec_snapshot().cache_miss_count == c.cache_misses,
        c.spec_snapshot().cache_eviction_count == c.cache_evictions,
        c.spec_snapshot().bytes_read_logical == c.bytes_read_logical,
        c.spec_snapshot().bytes_read_physical == c.bytes_read_physical,
        c.spec_snapshot().bytes_written_logical == c.bytes_written_logical,
        c.spec_snapshot().bytes_written_physical == c.bytes_written_physical,
        c.spec_snapshot().flush_count == c.flush_count,
        c.spec_snapshot().flush_error_count == c.flush_errors,
        c.spec_snapshot().ack_buffered_count == c.ack_buffered,
        c.spec_snapshot().ack_durable_count == c.ack_durable,
        c.spec_snapshot().eject_count == c.eject_count,
        c.spec_snapshot().unsafe_eject_blocked_count == c.unsafe_eject_blocked,
        c.spec_snapshot().device_removed_count == c.device_removals,
        c.spec_snapshot().sbp_request_count == c.sbp_requests,
        c.spec_snapshot().sbp_error_count == c.sbp_errors,
        c.spec_snapshot().compression_count == c.compression_ops,
        c.spec_snapshot().decompression_count == c.decompression_ops,
        c.spec_snapshot() == d.spec_snapshot() ==> c == d,
{
}

} // verus!
