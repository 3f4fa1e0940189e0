use volt_usb_manager::common::state::VumState;
use volt_usb_manager::safety::audit::{AuditEvent, AuditLog};
use volt_usb_manager::safety::corruption::CorruptionDetector;
use volt_usb_manager::safety::eject_guard::EjectGuard;
use volt_usb_manager::safety::fsync_policy::FsyncPolicy;
use volt_usb_manager::safety::guards::{PathGuard, WriteGuard};
use volt_usb_manager::safety::invariants::InvariantChecker;

#[test]
fn test_new_audit_log_empty() {
    let log = AuditLog::new(100);
    assert!(log.is_empty());
    assert_eq!(log.len(), 0);
}

#[test]
fn test_log_event() {
    let mut log = AuditLog::new(100);
    let event = AuditEvent::new("mount", Some("/dev/sda1"), "Mounted successfully", true);
    log.log(event);
    assert_eq!(log.len(), 1);
}

#[test]
fn test_recent_events() {
    let mut log = AuditLog::new(100);
    for i in 0..10 {
        log.log(AuditEvent::new(&format!("action_{}", i), None, "test", true));
    }
    let recent = log.recent(3);
    assert_eq!(recent.len(), 3);
    assert_eq!(recent[0].action, "action_9");
    assert_eq!(recent[2].action, "action_7");
}

#[test]
fn test_max_entries_enforced() {
    let mut log = AuditLog::new(5);
    for i in 0..10 {
        log.log(AuditEvent::new(&format!("action_{}", i), None, "overflow test", true));
    }
    assert_eq!(log.len(), 5);
    assert_eq!(log.events()[0].action, "action_5");
}

#[test]
fn test_clear() {
    let mut log = AuditLog::new(10);
    log.log(AuditEvent::new("test", None, "clear test", true));
    assert_eq!(log.len(), 1);
    log.clear();
    assert_eq!(log.len(), 0);
}

#[test]
fn test_event_timestamp() {
    let event = AuditEvent::new("test", None, "timestamp check", true);
    assert!(event.timestamp > 1_700_000_000);
}

#[test]
fn audit_recent_more_than_held() {
    let mut log = AuditLog::new(10);
    log.log(AuditEvent::new("a", None, "", true));
    log.log(AuditEvent::new("b", None, "", false));
    let recent = log.recent(5);
    assert_eq!(recent.len(), 2);
    assert_eq!(recent[0].action, "b");
    assert_eq!(recent[1].action, "a");
}

#[test]
fn test_new_guard_not_safe() {
    let guard = EjectGuard::new();
    assert!(!guard.is_safe());
}

#[test]
fn test_check_clean_journal() {
    let mut guard = EjectGuard::new();
    assert!(guard.check(false, 0).is_ok());
    assert!(guard.is_safe());
}

#[test]
fn test_check_dirty_journal() {
    let mut guard = EjectGuard::new();
    let result = guard.check(true, 1024);
    assert!(result.is_err());
    assert!(!guard.is_safe());
}

#[test]
fn test_check_dirty_bytes() {
    let mut guard = EjectGuard::new();
    let result = guard.check(false, 4096);
    assert!(result.is_err());
    assert!(!guard.is_safe());
}

#[test]
fn test_override_safety() {
    let mut guard = EjectGuard::new();
    guard.override_safety();
    assert!(guard.is_safe());
}

#[test]
fn test_always_fsyncs() {
    let policy = FsyncPolicy::Always;
    assert!(policy.should_fsync(true));
    assert!(policy.should_fsync(false));
}

#[test]
fn test_never_does_not_fsync() {
    let policy = FsyncPolicy::Never;
    assert!(!policy.should_fsync(true));
    assert!(!policy.should_fsync(false));
}

#[test]
fn test_metadata_only() {
    let policy = FsyncPolicy::MetadataOnly;
    assert!(policy.should_fsync(true));
    assert!(!policy.should_fsync(false));
}

#[test]
fn test_default_is_always() {
    let policy: FsyncPolicy = Default::default();
    assert_eq!(policy, FsyncPolicy::Always);
}

#[test]
fn test_clone_and_copy() {
    let a = FsyncPolicy::MetadataOnly;
    let b = a;
    assert_eq!(a, b);
}

#[test]
fn test_write_guard_allowed() {
    let guard = WriteGuard::new(false);
    assert!(guard.authorize().is_ok());
}

#[test]
fn test_write_guard_read_only() {
    let guard = WriteGuard::new(true);
    assert!(guard.authorize().is_err());
}

#[test]
fn path_guard_resolved_paths() {
    assert_eq!(PathGuard::validate_resolved("/srv/store/a/b", "/srv/store").unwrap(), "/srv/store/a/b");
    assert!(PathGuard::validate_resolved("/srv/other/a", "/srv/store").is_err());
    assert!(PathGuard::validate_resolved("/srv/store/a/../b", "/srv/store").is_err());
}

#[test]
fn test_clean_shutdown_ok() {
    assert!(InvariantChecker::check_no_dirty_writes_after_clean_shutdown(&VumState::Shutdown).is_ok());
    assert!(InvariantChecker::check_no_dirty_writes_after_clean_shutdown(&VumState::Unmounted).is_ok());
}

#[test]
fn test_dirty_journal_fails() {
    let result = InvariantChecker::check_no_dirty_writes_after_clean_shutdown(&VumState::JournalDirty);
    assert!(result.is_err());
}

#[test]
fn test_no_mount_if_unrecoverable() {
    assert!(InvariantChecker::check_no_mount_if_unrecoverable(&VumState::RecoveryRequired).is_err());
    assert!(InvariantChecker::check_no_mount_if_unrecoverable(&VumState::CorruptionDetected).is_err());
    assert!(InvariantChecker::check_no_mount_if_unrecoverable(&VumState::FatalError).is_err());
    assert!(InvariantChecker::check_no_mount_if_unrecoverable(&VumState::Running).is_ok());
}

#[test]
fn test_no_ack_durable_before_commit() {
    assert!(InvariantChecker::check_no_ack_durable_before_commit().is_ok());
}

use volt_usb_manager::safety::{SafetyMonitor, SafetyPolicy};

#[test]
fn test_safety_monitor_default() {
    let monitor = SafetyMonitor::new();
    assert!(!monitor.is_safe_to_eject());
    assert!(!monitor.is_journal_dirty());
}

#[test]
fn test_safety_eject_flow() {
    let mut monitor = SafetyMonitor::new();
    monitor.mark_safe_to_eject();
    assert!(monitor.is_safe_to_eject());
    monitor.mark_journal_dirty();
    assert!(!monitor.is_safe_to_eject());
    monitor.mark_journal_clean();
    assert!(monitor.is_safe_to_eject());
}

#[test]
fn test_safety_corruption() {
    let mut monitor = SafetyMonitor::new();
    monitor.mark_safe_to_eject();
    assert!(monitor.is_safe_to_eject());
    monitor.mark_corruption_detected();
    assert!(!monitor.is_safe_to_eject());
}

#[test]
fn test_safety_policy() {
    let mut monitor = SafetyMonitor::new();
    let policy = SafetyPolicy { require_clean_journal: false, ..Default::default() };
    monitor.set_policy(policy);
    assert!(!monitor.policy().require_clean_journal);
}

#[test]
fn invariant_error_texts() {
    let e = InvariantChecker::check_no_mount_if_unrecoverable(&VumState::FatalError).unwrap_err();
    assert_eq!(e.to_string(), "Internal invariant violation: Cannot mount in state FatalError");
    let e = InvariantChecker::check_no_path_escape_resolved("/srv/other", "/srv/store").unwrap_err();
    assert_eq!(e.to_string(), "Path traversal rejected: Path '/srv/other' escapes backing store '/srv/store'");
    let e = InvariantChecker::check_no_path_escape_resolved("/srv/store/./x", "/srv/store").unwrap_err();
    assert_eq!(e.to_string(), "Path traversal rejected: Path '/srv/store/./x' contains traversal components");
    assert!(InvariantChecker::check_no_path_escape_resolved("/srv/store/x", "/srv/store").is_ok());
}

#[test]
fn eject_guard_error_texts() {
    let mut guard = EjectGuard::new();
    assert_eq!(guard.check(true, 1024).unwrap_err().to_string(), "Unsafe to eject: Journal is dirty with 1024 bytes pending");
    assert_eq!(guard.check(false, 4096).unwrap_err().to_string(), "Unsafe to eject: 4096 dirty bytes pending writeback");
}

#[test]
fn corruption_checks() {
    let mut data = b"journal body".to_vec();
    let crc = crc32fast::hash(&data);
    data.extend_from_slice(&crc.to_le_bytes());
    assert!(CorruptionDetector::journal_bytes_intact(&data));
    data[0] ^= 1;
    assert!(!CorruptionDetector::journal_bytes_intact(&data));
    assert!(!CorruptionDetector::journal_bytes_intact(b"short"));
    assert!(CorruptionDetector::bytes_match_crc(b"abc", crc32fast::hash(b"abc")));
    assert_eq!(
        CorruptionDetector::sha256_hex(b"abc"),
        "ba7816bf8f01cfea414140de5dae2223b00361a396177a9cb410ff61f20015ad"
    );
}
