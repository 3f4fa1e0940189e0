use vstd::prelude::*;

use crate::util::sorted::strings_view;
use crate::util::text::str_to_string;

verus! {

/// The files chosen for warming the cache at boot, with their sizes.
pub struct WarmupPlan {
    pub files: Vec<String>,
    pub total_bytes: u64,
    pub prefetched_bytes: u64,
    pub pinned: Vec<String>,
    pub duration_ms: u64,
}

impl WarmupPlan {
    /// An empty plan.
    pub fn new() -> (p: Self)
        ensures
            p.files@.len() == 0,
            p.total_bytes == 0,
            p.prefetched_bytes == 0,
            p.pinned@.len() == 0,
            p.duration_ms == 0,
    {
        WarmupPlan {
            files: Vec::new(),
            total_bytes: 0,
            prefetched_bytes: 0,
            pinned: Vec::new(),
            duration_ms: 0,
        }
    }

    /// Adds a file of `size` bytes to the plan, and to the pinned files when
    /// `pin` is set.
    pub fn add_file(&mut self, path: &str, size: u64, pin: bool)
        requires
            old(self).total_bytes + size <= u64::MAX,
        ensures
            strings_view(final(self).files@) == strings_view(old(self).files@).push(path@),
            final(self).total_bytes == old(self).total_bytes + size,
            strings_view(final(self).pinned@) == (if pin {
                strings_view(old(self).pinned@).push(path@)
            } else {
                strings_view(old(self).pinned@)
            }),
            final(self).prefetched_bytes == old(self).prefetched_bytes,
            final(self).duration_ms == old(self).duration_ms,
    {
        self.files.push(str_to_string(path));
        assert(strings_view(self.files@) =~= strings_view(old(self).files@).push(path@));
        self.total_bytes = self.total_bytes + size;
        if pin {
            self.pinned.push(str_to_string(path));
            assert(strings_view(self.pinned@) =~= strings_view(old(self).pinned@).push(path@));
        }
    }

    /// Whether as many bytes were prefetched as the plan holds.
    pub fn is_complete(&self) -> (r: bool)
        ensures
            r == (self.prefetched_bytes >= self.total_bytes),
    {
        self.prefetched_bytes >= self.total_bytes
    }
}

} // verus!
