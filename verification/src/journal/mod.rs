pub mod checkpoint;
pub mod checksum;
pub mod commit;
pub mod journal;
pub mod journal_status;
pub mod record;
pub mod record_type;
pub mod recovery;
pub mod replay;
pub mod wal;
