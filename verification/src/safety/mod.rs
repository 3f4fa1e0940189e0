pub mod audit;
pub mod corruption;
pub mod eject_guard;
pub mod fsync_policy;
pub mod guards;
pub mod invariants;
pub mod safety_monitor;

pub use self::safety_monitor::{SafetyMonitor, SafetyPolicy};
