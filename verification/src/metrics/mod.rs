pub mod counters;
pub mod histogram;
pub mod latency;
pub mod throughput;

pub use counters::MetricsCounters;
pub use histogram::LatencyHistogram;
pub use latency::LatencyRange;
pub use throughput::ThroughputMetrics;
