use volt_usb_manager::journal::journal::{JournalConfig, JournalTracker};
use volt_usb_manager::journal::journal_status::JournalStatus;
use volt_usb_manager::journal::record::{JournalRecord, RECORD_MAGIC};
use volt_usb_manager::journal::record_type::RecordType;
use volt_usb_manager::journal::recovery::RecoveryEngine;
use volt_usb_manager::journal::replay::{JournalReplay, ReplayAction};

fn make_record() -> JournalRecord {
    JournalRecord::new(RecordType::BeginWrite, 42, "/test/file.bin", vec![1, 2, 3, 4, 5])
}

fn make_typed_record(ty: RecordType, id: u64, path: &str, data: &[u8]) -> JournalRecord {
    JournalRecord::new(ty, id, path, data.to_vec())
}

#[test]
fn test_journal_config_default() {
    let config = JournalConfig::default();
    assert_eq!(config.path, "journal");
    assert!(!config.fsync_on_record);
    assert_eq!(config.checkpoint_interval_ms, 5000);
}

#[test]
fn test_default_needs_recovery() {
    let s = JournalStatus {
        dirty: true,
        record_count: 0,
        bytes_written: 0,
        last_checkpoint: None,
        last_clean_shutdown: false,
        recovery_required: false,
    };
    assert!(s.needs_recovery());
}

#[test]
fn test_clean_shutdown_no_recovery() {
    let s = JournalStatus {
        dirty: false,
        record_count: 100,
        bytes_written: 4096,
        last_checkpoint: Some(42),
        last_clean_shutdown: true,
        recovery_required: false,
    };
    assert!(!s.needs_recovery());
    assert!(s.healthy());
}

#[test]
fn test_recovery_required_flag() {
    let s = JournalStatus {
        dirty: false,
        record_count: 0,
        bytes_written: 0,
        last_checkpoint: None,
        last_clean_shutdown: true,
        recovery_required: true,
    };
    assert!(s.needs_recovery());
    assert!(!s.healthy());
}

#[test]
fn test_dirty_without_shutdown() {
    let s = JournalStatus {
        dirty: true,
        record_count: 50,
        bytes_written: 2048,
        last_checkpoint: None,
        last_clean_shutdown: false,
        recovery_required: false,
    };
    assert!(s.needs_recovery());
    assert!(!s.healthy());
}

#[test]
fn test_dirty_with_shutdown() {
    let s = JournalStatus {
        dirty: true,
        record_count: 0,
        bytes_written: 0,
        last_checkpoint: None,
        last_clean_shutdown: true,
        recovery_required: false,
    };
    assert!(s.needs_recovery());
    assert!(!s.healthy());
}

#[test]
fn test_fields_accessible() {
    let s = JournalStatus {
        dirty: false,
        record_count: 10,
        bytes_written: 1234,
        last_checkpoint: Some(5),
        last_clean_shutdown: true,
        recovery_required: false,
    };
    assert!(!s.dirty);
    assert_eq!(s.record_count, 10);
    assert_eq!(s.bytes_written, 1234);
    assert_eq!(s.last_checkpoint, Some(5));
    assert!(s.last_clean_shutdown);
}

#[test]
fn test_record_new_and_fields() {
    let r = make_record();
    assert_eq!(r.magic, RECORD_MAGIC);
    assert_eq!(r.version, 1);
    assert_eq!(r.record_type, RecordType::BeginWrite);
    assert_eq!(r.record_id, 42);
    assert_eq!(r.path, "/test/file.bin");
    assert_eq!(r.data, vec![1, 2, 3, 4, 5]);
}

#[test]
fn test_record_checksum_auto_verify() {
    let r = make_record();
    assert!(r.verify_checksum());
}

#[test]
fn test_record_to_bytes_roundtrip() {
    let r = make_record();
    let bytes = r.to_bytes();
    let r2 = JournalRecord::from_bytes(&bytes).unwrap();
    assert_eq!(r.record_id, r2.record_id);
    assert_eq!(r.record_type, r2.record_type);
    assert_eq!(r.path, r2.path);
    assert_eq!(r.data, r2.data);
    assert_eq!(r.timestamp_us, r2.timestamp_us);
}

#[test]
fn test_record_from_bytes_invalid_magic() {
    let r = make_record();
    let mut bytes = r.to_bytes();
    bytes[0] = 0xFF;
    bytes[1] = 0xFF;
    bytes[2] = 0xFF;
    bytes[3] = 0xFF;
    let result = JournalRecord::from_bytes(&bytes);
    assert!(result.is_err());
}

#[test]
fn test_record_from_bytes_truncated() {
    let r = make_record();
    let bytes = r.to_bytes();
    let truncated = &bytes[..20];
    let result = JournalRecord::from_bytes(truncated);
    assert!(result.is_err());
}

#[test]
fn test_record_size_consistency() {
    let r = make_record();
    let bytes = r.to_bytes();
    assert_eq!(bytes.len(), r.size());
}

#[test]
fn test_record_compute_checksum_different() {
    let r1 = JournalRecord::new(RecordType::BeginWrite, 1, "/a", vec![0]);
    let r2 = JournalRecord::new(RecordType::BeginWrite, 2, "/b", vec![1]);
    assert_ne!(r1.checksum, r2.checksum);
}

#[test]
fn test_record_new_with_empty_data() {
    let r = JournalRecord::new(RecordType::Checkpoint, 0, "/cp", vec![]);
    assert!(r.verify_checksum());
    assert_eq!(r.data.len(), 0);
}

#[test]
fn test_record_from_bytes_tampered_data() {
    let r = make_record();
    let mut bytes = r.to_bytes();
    let path_len = u32::from_le_bytes(bytes[22..26].try_into().unwrap()) as usize;
    let data_offset = 26 + path_len;
    let data_len_pos = data_offset;
    let data_len = u32::from_le_bytes(bytes[data_len_pos..data_len_pos + 4].try_into().unwrap()) as usize;
    let data_start = data_len_pos + 4;
    if data_len > 0 {
        bytes[data_start] ^= 0xFF;
    }
    let result = JournalRecord::from_bytes(&bytes);
    assert!(result.is_err());
}

#[test]
fn test_record_empty_path() {
    let r = JournalRecord::new(RecordType::BeginWrite, 1, "", vec![10]);
    assert_eq!(r.path, "");
    assert!(r.verify_checksum());
    let bytes = r.to_bytes();
    let r2 = JournalRecord::from_bytes(&bytes).unwrap();
    assert_eq!(r2.path, "");
}

#[test]
fn record_type_test_from_byte_valid() {
    assert_eq!(RecordType::from_byte(1), Some(RecordType::BeginWrite));
    assert_eq!(RecordType::from_byte(9), Some(RecordType::CleanShutdown));
}

#[test]
fn record_type_test_from_byte_invalid() {
    assert_eq!(RecordType::from_byte(0), None);
    assert_eq!(RecordType::from_byte(10), None);
    assert_eq!(RecordType::from_byte(255), None);
}

#[test]
fn test_is_begin() {
    assert!(RecordType::BeginWrite.is_begin());
    assert!(RecordType::BeginDelete.is_begin());
    assert!(RecordType::BeginRename.is_begin());
    assert!(!RecordType::CommitWrite.is_begin());
    assert!(!RecordType::Checkpoint.is_begin());
}

#[test]
fn test_is_commit() {
    assert!(RecordType::CommitWrite.is_commit());
    assert!(RecordType::CommitDelete.is_commit());
    assert!(RecordType::CommitRename.is_commit());
    assert!(!RecordType::BeginWrite.is_commit());
    assert!(!RecordType::AbortWrite.is_commit());
    assert!(!RecordType::CleanShutdown.is_commit());
}

#[test]
fn test_repr_values() {
    assert_eq!(RecordType::BeginWrite.to_byte(), 1);
    assert_eq!(RecordType::CleanShutdown.to_byte(), 9);
}

#[test]
fn test_all_variants_roundtrip() {
    let variants = [
        RecordType::BeginWrite,
        RecordType::CommitWrite,
        RecordType::AbortWrite,
        RecordType::BeginDelete,
        RecordType::CommitDelete,
        RecordType::BeginRename,
        RecordType::CommitRename,
        RecordType::Checkpoint,
        RecordType::CleanShutdown,
    ];
    for v in &variants {
        let byte = v.to_byte();
        let back = RecordType::from_byte(byte).unwrap();
        assert_eq!(*v, back);
    }
}

#[test]
fn test_engine_new() {
    let engine = RecoveryEngine::new();
    let _ = engine;
}

#[test]
fn test_new_replay_counts() {
    let r = JournalReplay::new();
    assert_eq!(r.records_replayed, 0);
    assert_eq!(r.writes_applied, 0);
    assert_eq!(r.writes_rolled_back, 0);
    assert_eq!(r.last_record_id, 0);
}

#[test]
fn test_find_incomplete_no_commit() {
    let records = vec![
        make_typed_record(RecordType::BeginWrite, 1, "/a", b"data"),
        make_typed_record(RecordType::BeginWrite, 2, "/b", b"data2"),
        make_typed_record(RecordType::CommitWrite, 1, "", b""),
    ];
    let replay = JournalReplay::new();
    let incomplete = replay.find_incomplete(&records);
    assert_eq!(incomplete.len(), 1);
    assert_eq!(incomplete[0].record_id, 2);
}

#[test]
fn test_find_incomplete_all_complete() {
    let records = vec![
        make_typed_record(RecordType::BeginWrite, 1, "/a", b"data"),
        make_typed_record(RecordType::CommitWrite, 1, "", b""),
        make_typed_record(RecordType::BeginDelete, 2, "/b", b""),
        make_typed_record(RecordType::CommitDelete, 2, "", b""),
    ];
    let replay = JournalReplay::new();
    let incomplete = replay.find_incomplete(&records);
    assert_eq!(incomplete.len(), 0);
}

#[test]
fn test_find_incomplete_with_abort() {
    let records = vec![
        make_typed_record(RecordType::BeginWrite, 1, "/a", b"data"),
        make_typed_record(RecordType::AbortWrite, 1, "", b""),
    ];
    let replay = JournalReplay::new();
    let incomplete = replay.find_incomplete(&records);
    assert_eq!(incomplete.len(), 0);
}

use volt_usb_manager::journal::checksum::{crc32, crc32_of_records, verify_checksum};

#[test]
fn test_crc32_empty() {
    assert_eq!(crc32(b""), 0u32);
}

#[test]
fn test_crc32_known() {
    let result = crc32(b"hello");
    assert_ne!(result, 0);
}

#[test]
fn test_crc32_different_inputs_different_hashes() {
    let a = crc32(b"foo");
    let b = crc32(b"bar");
    assert_ne!(a, b);
}

#[test]
fn test_crc32_of_records() {
    let data = b"record1record2record3";
    let direct = crc32(data);
    let via_records = crc32_of_records(data);
    assert_eq!(direct, via_records);
}

#[test]
fn test_verify_checksum_valid() {
    let data = b"verify me";
    let hash = crc32(data);
    assert!(verify_checksum(data, hash));
}

#[test]
fn test_verify_checksum_invalid() {
    let data = b"verify me";
    let hash = crc32(data);
    assert!(!verify_checksum(b"wrong data", hash));
}

#[test]
fn test_crc32_large_input() {
    let large: Vec<u8> = (0..u8::MAX).cycle().take(10000).collect();
    let hash = crc32(&large);
    assert_ne!(hash, 0);
    assert!(verify_checksum(&large, hash));
}

#[test]
fn crc32_standard_check_value() {
    // The CRC-32 (IEEE) of "123456789" is 0xCBF43926.
    assert_eq!(crc32(b"123456789"), 0xCBF4_3926);
}

#[test]
fn record_error_texts() {
    let r = make_record();
    let mut bytes = r.to_bytes();
    bytes[0] = 0xFF;
    bytes[1] = 0xFF;
    bytes[2] = 0xFF;
    bytes[3] = 0xFF;
    let e = JournalRecord::from_bytes(&bytes).unwrap_err();
    assert_eq!(e.to_string(), "Journal corrupt: Invalid magic: expected 0x4A524E4C, got 0xFFFFFFFF");
    let mut bytes = r.to_bytes();
    bytes[5] = 77;
    let e = JournalRecord::from_bytes(&bytes).unwrap_err();
    assert_eq!(e.to_string(), "Journal corrupt: Invalid record type byte: 77");
    let e = JournalRecord::from_bytes(&r.to_bytes()[..20]).unwrap_err();
    assert_eq!(e.to_string(), "Journal corrupt: Record too short for header");
}

#[test]
fn replay_plan_applies_committed_and_rolls_back_aborted() {
    let records = vec![
        make_typed_record(RecordType::BeginWrite, 1, "/dir/a", b"one"),
        make_typed_record(RecordType::CommitWrite, 1, "", b""),
        make_typed_record(RecordType::BeginWrite, 2, "/b", b"two"),
        make_typed_record(RecordType::AbortWrite, 2, "", b""),
        make_typed_record(RecordType::BeginWrite, 3, "/c", b"three"),
    ];
    let mut replay = JournalReplay::new();
    let actions = replay.plan(&records);
    assert_eq!(replay.records_replayed, 5);
    assert!(actions[0].is_none());
    match &actions[1] {
        Some(ReplayAction::WriteFile { rel_path, data }) => {
            assert_eq!(rel_path, "dir/a");
            assert_eq!(data, &b"one".to_vec());
        }
        _ => panic!("commit of record 1 should write its file"),
    }
    match &actions[3] {
        Some(ReplayAction::RollBackFile { rel_path }) => assert_eq!(rel_path, "b"),
        _ => panic!("abort of record 2 should roll its file back"),
    }
    assert!(actions[4].is_none());
    for (r, a) in records.iter().zip(actions.iter()) {
        replay.accept_record(r).unwrap();
        if let Some(a) = a {
            replay.action_done(a);
        }
    }
    assert_eq!(replay.writes_applied, 1);
    assert_eq!(replay.writes_rolled_back, 1);
    assert_eq!(replay.last_record_id, 3);
}

#[test]
fn replay_stops_at_first_bad_checksum() {
    let mut records = vec![
        make_typed_record(RecordType::BeginWrite, 5, "/a", b"one"),
        make_typed_record(RecordType::CommitWrite, 5, "", b""),
        make_typed_record(RecordType::BeginWrite, 9, "/b", b"two"),
        make_typed_record(RecordType::CommitWrite, 9, "", b""),
    ];
    records[2].checksum ^= 1;
    let mut replay = JournalReplay::new();
    let actions = replay.plan(&records);
    let mut failed_at = None;
    for (i, (r, a)) in records.iter().zip(actions.iter()).enumerate() {
        if replay.accept_record(r).is_err() {
            failed_at = Some(i);
            break;
        }
        if let Some(a) = a {
            replay.action_done(a);
        }
    }
    assert_eq!(failed_at, Some(2));
    assert_eq!(replay.records_replayed, 4);
    assert_eq!(replay.writes_applied, 1);
    assert_eq!(replay.writes_rolled_back, 0);
    assert_eq!(replay.last_record_id, 5);
}

#[test]
fn recovery_needed_unless_clean_shutdown_last() {
    let begin = make_typed_record(RecordType::BeginWrite, 1, "/a", b"x");
    let clean = make_typed_record(RecordType::CleanShutdown, 0, "", b"");
    let mut log = begin.to_bytes();
    assert!(RecoveryEngine::needed_for_log(log.clone()));
    log.extend_from_slice(&clean.to_bytes());
    assert!(!RecoveryEngine::needed_for_log(log.clone()));
    assert_eq!(RecoveryEngine::collect_records(log).len(), 2);
    assert!(!RecoveryEngine::needed_for_log(Vec::new()));
}

#[test]
fn record_ids_count_up_from_one() {
    let mut ids = volt_usb_manager::journal::commit::RecordIds::new();
    assert_eq!(ids.last_id(), 0);
    assert_eq!(ids.allocate(), 1);
    assert_eq!(ids.allocate(), 2);
    assert_eq!(ids.pending_id(), 3);
    assert_eq!(ids.last_id(), 2);
}

#[test]
fn wal_reads_back_what_was_written() {
    let a = make_typed_record(RecordType::BeginWrite, 1, "/a", b"alpha");
    let b = make_typed_record(RecordType::CommitWrite, 1, "", b"");
    let mut log = a.to_bytes();
    log.extend_from_slice(&b.to_bytes());
    let mut reader = volt_usb_manager::journal::wal::WalReader::from_bytes(log.clone());
    assert_eq!(reader.total_bytes(), log.len());
    let first = reader.read_record().unwrap();
    assert_eq!(first.path, "/a");
    assert_eq!(first.data, b"alpha".to_vec());
    assert_eq!(reader.remaining(), b.to_bytes().len());
    let second = reader.read_record().unwrap();
    assert_eq!(second.record_type, RecordType::CommitWrite);
    assert!(reader.read_record().is_none());
    assert_eq!(reader.remaining(), 0);
}

#[test]
fn tracker_checkpoint_falls_due() {
    let config = JournalConfig { path: "j".to_string(), fsync_on_record: false, checkpoint_interval_ms: 300 };
    let mut t = JournalTracker::new(&config, false);
    assert!(!t.is_dirty());
    t.note_begin();
    t.note_begin();
    assert!(t.is_dirty());
    assert!(!t.checkpoint_due());
    t.note_begin();
    assert!(t.checkpoint_due());
    t.note_checkpoint();
    assert!(!t.is_dirty());
    assert_eq!(t.records_since_checkpoint(), 0);
}
