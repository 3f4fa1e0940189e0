use volt_usb_manager::ram::allocation::RamAllocation;
use volt_usb_manager::ram::quota::RamQuota;
use volt_usb_manager::ram::ram_client::RamClient;
use volt_usb_manager::ram::volt_ram_client::VoltRamClient;

#[test]
fn test_new_allocation() {
    let alloc = RamAllocation::new(4096, "write buffer");
    assert_eq!(alloc.bytes, 4096);
    assert_eq!(alloc.purpose, "write buffer");
}

#[test]
fn test_zero_bytes_allocation() {
    let alloc = RamAllocation::new(0, "empty");
    assert_eq!(alloc.bytes, 0);
}

#[test]
fn test_allocation_clone() {
    let a = RamAllocation::new(8192, "cache");
    let b = a.clone();
    assert_eq!(a.bytes, b.bytes);
    assert_eq!(a.purpose, b.purpose);
}

#[test]
fn test_ram_client_allocate() {
    let mut client = RamClient::new();
    assert!(client.allocate(1024));
    assert_eq!(client.used(), 1024);
    assert_eq!(client.available(), client.quota() - 1024);
}

#[test]
fn test_ram_client_pressure() {
    let mut client = RamClient::new();
    client.set_quota(1);
    assert!(client.allocate(512 * 1024));
    assert!(client.allocate(512 * 1024));
    assert!(!client.allocate(1));
    assert!(client.under_pressure());
}

#[test]
fn test_ram_client_free() {
    let mut client = RamClient::new();
    client.allocate(4096);
    client.deallocate(2048);
    assert_eq!(client.used(), 2048);
    client.free();
    assert_eq!(client.used(), 0);
}

#[test]
fn ram_client_pressure_ends_below_half() {
    let mut client = RamClient::new();
    client.set_quota(1);
    assert!(client.allocate(1024 * 1024));
    assert!(!client.allocate(1));
    assert!(client.under_pressure());
    client.deallocate(600 * 1024);
    assert!(!client.under_pressure());
}

#[test]
fn test_new_quota() {
    let q = RamQuota::new(100);
    assert_eq!(q.max_bytes, 100 * 1024 * 1024);
    assert_eq!(q.used_bytes, 0);
}

#[test]
fn test_check_within_limit() {
    let q = RamQuota::new(10);
    assert!(q.check(5 * 1024 * 1024).is_ok());
}

#[test]
fn test_check_exceeds_limit() {
    let q = RamQuota::new(1);
    assert!(q.check(2 * 1024 * 1024).is_err());
}

#[test]
fn quota_check_error_texts() {
    let q = RamQuota::new(1);
    let e = q.check(2 * 1024 * 1024).unwrap_err();
    assert_eq!(e.to_string(), "Internal invariant violation: Memory quota exceeded: would use 2097152 of 1048576 bytes");
    let full = RamQuota { max_bytes: 10, used_bytes: u64::MAX };
    let e = full.check(1).unwrap_err();
    assert_eq!(e.to_string(), "Internal invariant violation: Requested memory would overflow");
}

#[test]
fn test_record_and_release() {
    let mut q = RamQuota::new(100);
    q.record(50 * 1024 * 1024);
    assert_eq!(q.used_bytes, 50 * 1024 * 1024);
    q.release(20 * 1024 * 1024);
    assert_eq!(q.used_bytes, 30 * 1024 * 1024);
}

#[test]
fn quota_record_caps_and_release_floors() {
    let mut q = RamQuota::new(1);
    q.record(u64::MAX);
    assert_eq!(q.used_bytes, 1024 * 1024);
    q.release(u64::MAX);
    assert_eq!(q.used_bytes, 0);
}

#[test]
fn test_available_bytes() {
    let mut q = RamQuota::new(100);
    q.record(30 * 1024 * 1024);
    assert_eq!(q.available_bytes(), 70 * 1024 * 1024);
}

#[test]
fn test_new_client_not_connected() {
    let client = VoltRamClient::new();
    assert!(!client.is_connected());
    assert_eq!(client.quota_mb(), 512);
}

#[test]
fn test_set_socket_path() {
    let mut client = VoltRamClient::new();
    client.set_socket_path("/tmp/custom.sock");
    assert!(!client.is_connected());
}

#[test]
fn test_request_quota_not_connected() {
    let client = VoltRamClient::new();
    assert!(client.require_connected().is_err());
}

#[test]
fn test_allocation_debug() {
    let alloc = RamAllocation::new(1024, "test");
    let debug = format!("{:?}", alloc);
    assert!(debug.contains("1024"));
    assert!(debug.contains("test"));
}

#[test]
fn volt_ram_client_protocol_texts() {
    let mut client = VoltRamClient::new();
    assert_eq!(VoltRamClient::quota_request(256), "SBP-MEM:REQUEST_QUOTA:256\n");
    assert!(client.finish_connect("NOPE").is_err());
    assert!(!client.is_connected());
    assert!(client.finish_connect("OK hello").is_ok());
    assert!(client.is_connected());
    let e = client.finish_quota_request(128, "DENIED").unwrap_err();
    assert_eq!(e.to_string(), "Internal invariant violation: Quota request denied: DENIED");
    assert_eq!(client.quota_mb(), 512);
    assert!(client.finish_quota_request(128, "quota GRANTED").is_ok());
    assert_eq!(client.quota_mb(), 128);
    assert_eq!(client.release_notice(), "SBP-MEM:RELEASE_QUOTA:128\n");
    client.finish_release();
    assert!(!client.is_connected());
    assert_eq!(client.quota_mb(), 0);
}
