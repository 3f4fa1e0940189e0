use vstd::prelude::*;

use crate::journal::record::{JournalRecord, RecordView};
use crate::journal::record_type::RecordType;
use crate::journal::replay::records_view;
use crate::journal::record::spec_record_well_formed;
use crate::journal::wal::{WalReader, spec_read_all, spec_wal_bytes, lemma_wal_reads_back};

verus! {

/// Decides whether a journal needs recovery and runs it.
pub struct RecoveryEngine;

/// A log needs recovery when it holds records and the last one read is not
/// a clean shutdown.
pub open spec fn spec_needs_recovery(records: Seq<RecordView>) -> bool {
    records.len() > 0 && !(records.last().record_type is CleanShutdown)
}

impl RecoveryEngine {
    pub fn new() -> (r: Self) {
        RecoveryEngine
    }

    /// Whether recovery is needed after reading these records from the log.
    pub fn needed_for_records(records: &[JournalRecord]) -> (r: bool)
        ensures
            r == spec_needs_recovery(records_view(records@)),
            records@.len() == 0 ==> !r,
            records@.len() > 0 ==> (r <==> records@[records@.len() - 1].record_type != RecordType::CleanShutdown),
    {
        if records.len() == 0 {
            return false;
        }
        let last = &records[records.len() - 1];
        !(last.record_type == RecordType::CleanShutdown)
    }

    /// Whether the log with these bytes needs recovery: it does when some
    /// record can be read from it and the last one read is not a clean
    /// shutdown. An empty or unreadable log needs none.
    pub fn needed_for_log(data: Vec<u8>) -> (r: bool)
        ensures
            r == spec_needs_recovery(spec_read_all(data@, 0)),
    {
        let mut reader = WalReader::from_bytes(data);
        let records = reader.read_all();
        Self::needed_for_records(records.as_slice())
    }

    /// The records of a log, read from its start until reading stops.
    pub fn collect_records(data: Vec<u8>) -> (records: Vec<JournalRecord>)
        ensures
            records_view(records@) == spec_read_all(data@, 0),
    {
        let mut reader = WalReader::from_bytes(data);
        reader.read_all()
    }
}

impl Default for RecoveryEngine {
    fn default() -> (r: Self) {
        Self::new()
    }
}

} // verus!

verus! {

/// Recovery is needed exactly when the log holds records and its last record
/// is anything but a clean shutdown: a log cut off after a begin, a commit,
/// an abort or a checkpoint needs it; an empty log does not.
pub proof fn law_recovery_needed_unless_clean_shutdown(records: Seq<RecordView>)
    ensures
        records.len() == 0 ==> !spec_needs_recovery(records),
        records.len() > 0 ==> (spec_needs_recovery(records)
            <==> records[records.len() - 1].record_type != RecordType::CleanShutdown),
{
}

/// A log written from well-formed records needs recovery exactly when it
/// holds some and the last one written is not a clean shutdown.
pub proof fn law_written_log_needs_recovery(rs: Seq<RecordView>)
    requires
        forall|i: int| 0 <= i < rs.len() ==> spec_record_well_formed(#[trigger] rs[i]),
    ensures
        spec_needs_recovery(spec_read_all(spec_wal_bytes(rs), 0))
            <==> (rs.len() > 0 && rs[rs.len() - 1].record_type != RecordType::CleanShutdown),
{
    lemma_wal_reads_back(rs);
}

} // verus!
