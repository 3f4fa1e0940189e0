use vstd::prelude::*;

verus! {

/// When writes are followed by an fsync.
#[derive(Debug, Clone, Copy, PartialEq, Eq, Structural)]
pub enum FsyncPolicy {
    Always,
    MetadataOnly,
    Never,
}

impl FsyncPolicy {
    /// Always: every write; MetadataOnly: metadata writes; Never: none.
    pub fn should_fsync(&self, is_metadata: bool) -> (r: bool)
        ensures
            r == match *self {
                FsyncPolicy::Always => true,
                FsyncPolicy::MetadataOnly => is_metadata,
                FsyncPolicy::Never => false,
            },
    {
        match self {
            FsyncPolicy::Always => true,
            FsyncPolicy::MetadataOnly => is_metadata,
            FsyncPolicy::Never => false,
        }
    }
}

impl Default for FsyncPolicy {
    /// The safest policy, `Always`.
    fn default() -> (p: Self)
        ensures
            p == FsyncPolicy::Always,
    {
        FsyncPolicy::Always
    }
}

} // verus!
