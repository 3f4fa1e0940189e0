use vstd::prelude::*;

verus! {

/// Lifecycle states of the manager.
#[derive(Debug, Clone, Copy, PartialEq, Eq, Structural)]
pub enum VumState {
    Uninitialized,
    ConfigLoaded,
    Running,
    JournalDirty,
    RecoveryRequired,
    CorruptionDetected,
    ReadOnly,
    Unmounted,
    Shutdown,
    FatalError,
}

} // verus!

verus! {

/// The name of a state, as `Debug` writes it.
pub open spec fn spec_state_name(s: VumState) -> Seq<char> {
    match s {
        VumState::Uninitialized => "Uninitialized"@,
        VumState::ConfigLoaded => "ConfigLoaded"@,
        VumState::Running => "Running"@,
        VumState::JournalDirty => "JournalDirty"@,
        VumState::RecoveryRequired => "RecoveryRequired"@,
        VumState::CorruptionDetected => "CorruptionDetected"@,
        VumState::ReadOnly => "ReadOnly"@,
        VumState::Unmounted => "Unmounted"@,
        VumState::Shutdown => "Shutdown"@,
        VumState::FatalError => "FatalError"@,
    }
}

impl VumState {
    /// The name of the state.
    pub fn name(&self) -> (s: &'static str)
        ensures
            s@ == spec_state_name(*self),
    {
        match self {
            VumState::Uninitialized => "Uninitialized",
            VumState::ConfigLoaded => "ConfigLoaded",
            VumState::Running => "Running",
            VumState::JournalDirty => "JournalDirty",
            VumState::RecoveryRequired => "RecoveryRequired",
            VumState::CorruptionDetected => "CorruptionDetected",
            VumState::ReadOnly => "ReadOnly",
            VumState::Unmounted => "Unmounted",
            VumState::Shutdown => "Shutdown",
            VumState::FatalError => "FatalError",
        }
    }
}

} // verus!
