use vstd::prelude::*;

verus! {

/// How close memory use is to its limit.
#[derive(Debug, Clone, Copy, PartialEq, Eq, Structural)]
pub enum RamPressure {
    Normal,
    Warning,
    Critical,
}

impl RamPressure {
    /// Back off new work under warning or critical pressure.
    pub fn should_backoff(&self) -> (r: bool)
        ensures
            r == (*self is Warning || *self is Critical),
    {
        matches!(self, RamPressure::Warning | RamPressure::Critical)
    }

    /// Evict cached data only under critical pressure.
    pub fn should_evict(&self) -> (r: bool)
        ensures
            r == (*self is Critical),
    {
        matches!(self, RamPressure::Critical)
    }
}

} // verus!
