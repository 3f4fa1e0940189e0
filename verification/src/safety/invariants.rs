use vstd::prelude::*;

use crate::common::error::VumError;
use crate::common::result::VumResult;
use crate::common::state::{VumState, spec_state_name};
use crate::safety::guards::{relative_part, spec_relative};
use crate::util::text::{concat_str, contains_str, spec_contains, starts_with, str_to_string};

verus! {

/// Checks the manager's safety invariants.
pub struct InvariantChecker;

impl InvariantChecker {
    /// After a shutdown no dirty journal or detected corruption may remain:
    /// those two states are violations, every other state passes.
    pub fn check_no_dirty_writes_after_clean_shutdown(state: &VumState) -> (r: VumResult<()>)
        ensures
            r is Ok <==> !(*state is JournalDirty || *state is CorruptionDetected),
            *state is JournalDirty ==> (r matches Err(VumError::InternalInvariantViolation(m))
                && m@ == "Dirty journal present after shutdown"@),
            *state is CorruptionDetected ==> (r matches Err(VumError::InternalInvariantViolation(m))
                && m@ == "Corruption detected during shutdown"@),
    {
        match state {
            VumState::Shutdown | VumState::Unmounted => Ok(()),
            VumState::JournalDirty => Err(VumError::InternalInvariantViolation(str_to_string("Dirty journal present after shutdown"))),
            VumState::CorruptionDetected => Err(VumError::InternalInvariantViolation(str_to_string("Corruption detected during shutdown"))),
            _ => Ok(()),
        }
    }

    /// Durable acknowledgements are only sent after commit; there is
    /// nothing to check at this point, so this always passes.
    pub fn check_no_ack_durable_before_commit() -> (r: VumResult<()>)
        ensures
            r is Ok,
    {
        Ok(())
    }

    /// Mounting is refused while recovery is required, corruption was
    /// detected, or a fatal error occurred.
    pub fn check_no_mount_if_unrecoverable(state: &VumState) -> (r: VumResult<()>)
        ensures
            r is Ok <==> !(*state is RecoveryRequired || *state is CorruptionDetected || *state is FatalError),
            r is Err ==> (r matches Err(VumError::InternalInvariantViolation(m))
                && m@ == "Cannot mount in state "@ + spec_state_name(*state)),
    {
        match state {
            VumState::RecoveryRequired | VumState::CorruptionDetected | VumState::FatalError => {
                Err(VumError::InternalInvariantViolation(concat_str("Cannot mount in state ", state.name())))
            },
            _ => Ok(()),
        }
    }

    /// Judges a path and backing store already resolved to canonical form:
    /// the path must lie under the backing store and the rest of it may
    /// hold neither ".." nor "./"; otherwise `PathTraversalRejected`.
    pub fn check_no_path_escape_resolved(path: &str, backing: &str) -> (r: VumResult<()>)
        ensures
            r is Ok <==> (backing@.is_prefix_of(path@)
                && !spec_contains(spec_relative(path@, backing@), ".."@)
                && !spec_contains(spec_relative(path@, backing@), "./"@)),
            !backing@.is_prefix_of(path@) ==> (r matches Err(VumError::PathTraversalRejected(m))
                && m@ == "Path '"@ + path@ + "' escapes backing store '"@ + backing@ + "'"@),
            backing@.is_prefix_of(path@) && r is Err ==> (r matches Err(VumError::PathTraversalRejected(m))
                && m@ == "Path '"@ + path@ + "' contains traversal components"@),
    {
        if !starts_with(path, backing) {
            let a = concat_str("Path '", path);
            let b = concat_str(a.as_str(), "' escapes backing store '");
            let c = concat_str(b.as_str(), backing);
            return Err(VumError::PathTraversalRejected(concat_str(c.as_str(), "'")));
        }
        let relative = relative_part(path, backing);
        if contains_str(relative.as_str(), "..") || contains_str(relative.as_str(), "./") {
            let a = concat_str("Path '", path);
            return Err(VumError::PathTraversalRejected(concat_str(a.as_str(), "' contains traversal components")));
        }
        Ok(())
    }
}

} // verus!
