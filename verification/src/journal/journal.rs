use vstd::prelude::*;
use vstd::string::*;

verus! {

/// Settings of a journal.
#[derive(Debug, Clone)]
pub struct JournalConfig {
    pub path: String,
    pub fsync_on_record: bool,
    pub checkpoint_interval_ms: u64,
}

impl Default for JournalConfig {
    /// Path "journal", no fsync per record, a checkpoint every 5000 ms.
    fn default() -> (c: Self)
        ensures
            c.path@ == "journal"@,
            !c.fsync_on_record,
            c.checkpoint_interval_ms == 5000,
    {
        JournalConfig { path: String::from_str("journal"), fsync_on_record: false, checkpoint_interval_ms: 5000 }
    }
}

/// The bookkeeping of an open journal: whether it holds operations not yet
/// checkpointed, and how many have been begun since the last checkpoint.
#[derive(Debug)]
pub struct JournalTracker {
    dirty: bool,
    records_since_checkpoint: u64,
    checkpoint_after: u64,
}

impl JournalTracker {
    pub closed spec fn spec_dirty(&self) -> bool {
        self.dirty
    }

    pub closed spec fn spec_count(&self) -> u64 {
        self.records_since_checkpoint
    }

    pub closed spec fn spec_checkpoint_after(&self) -> u64 {
        self.checkpoint_after
    }

    /// A tracker for a journal opened with `config`; `was_dirty` says
    /// whether a log was already present. A checkpoint falls due once as
    /// many operations as the interval in milliseconds divided by 100 have
    /// been begun.
    pub fn new(config: &JournalConfig, was_dirty: bool) -> (t: Self)
        ensures
            t.spec_dirty() == was_dirty,
            t.spec_count() == 0,
            t.spec_checkpoint_after() == config.checkpoint_interval_ms / 100,
    {
        JournalTracker { dirty: was_dirty, records_since_checkpoint: 0, checkpoint_after: config.checkpoint_interval_ms / 100 }
    }

    /// Notes an operation begun: the journal is dirty and one more
    /// operation awaits a checkpoint (the count wraps as an atomic does).
    pub fn note_begin(&mut self)
        ensures
            final(self).spec_dirty(),
            final(self).spec_count() == if old(self).spec_count() == u64::MAX { 0 } else { (old(self).spec_count() + 1) as u64 },
            final(self).spec_checkpoint_after() == old(self).spec_checkpoint_after(),
    {
        self.dirty = true;
        self.records_since_checkpoint = self.records_since_checkpoint.wrapping_add(1);
    }

    /// Whether a checkpoint is due after a commit.
    pub fn checkpoint_due(&self) -> (r: bool)
        ensures
            r == (self.spec_count() >= self.spec_checkpoint_after()),
    {
        self.records_since_checkpoint >= self.checkpoint_after
    }

    /// Notes a checkpoint or a clean shutdown: nothing awaits a checkpoint
    /// and the journal is clean.
    pub fn note_checkpoint(&mut self)
        ensures
            !final(self).spec_dirty(),
            final(self).spec_count() == 0,
            final(self).spec_checkpoint_after() == old(self).spec_checkpoint_after(),
    {
        self.records_since_checkpoint = 0;
        self.dirty = false;
    }

    /// Whether operations were begun since the last checkpoint (or a log was
    /// found on opening).
    pub fn is_dirty(&self) -> (r: bool)
        ensures
            r == self.spec_dirty(),
    {
        self.dirty
    }

    /// How many operations were begun since the last checkpoint.
    pub fn records_since_checkpoint(&self) -> (r: u64)
        ensures
            r == self.spec_count(),
    {
        self.records_since_checkpoint
    }
}

} // verus!
