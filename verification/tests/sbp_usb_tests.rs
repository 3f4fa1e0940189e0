use volt_usb_manager::sbp_usb::deserializer::deserialize;
use volt_usb_manager::sbp_usb::handler::{
    EjectHandler, FlushHandler, HandlerContext, HeartbeatHandler, MetricsHandler, MountHandler, ReadHandler,
    SbpUsbHandler, StatusHandler, WriteBufferStatus, WriteHandler,
};
use volt_usb_manager::sbp_usb::message::{MessageFlags, SbpUsbMessage, SBP_USB_HEADER_SIZE, SBP_USB_MAGIC};
use volt_usb_manager::sbp_usb::opcode::SbpUsbOpcode;
use volt_usb_manager::sbp_usb::permissions::SbpUsbPermission;
use volt_usb_manager::sbp_usb::request::parse_request;
use volt_usb_manager::sbp_usb::response::SbpUsbResponse;
use volt_usb_manager::sbp_usb::serializer::serialize;
use volt_usb_manager::util::text::lossy_text;

fn make_manager() -> HandlerContext {
    HandlerContext {
        status_line: "[Uninitialized] cache=0.0% pending=0B fl=0/0 lat=0/0/0us jrnl=0 eject=0".to_string(),
        write_buffer: None,
        mount_point: "/mnt/volt-usb".to_string(),
        metrics_json: b"{\"uptime_ms\":0}".to_vec(),
    }
}

fn sample_message() -> SbpUsbMessage {
    let mut msg = SbpUsbMessage::new(SbpUsbOpcode::UsbWrite, 42, vec![0xAB, 0xCD]);
    msg.request_id = 1001;
    msg.timestamp_us = 5000;
    msg
}

#[test]
fn test_deserialize_valid_message() {
    let msg = SbpUsbMessage::new(SbpUsbOpcode::UsbStatus, 1, vec![0x42]);
    let bytes = msg.to_bytes();
    let result = deserialize(&bytes).unwrap();
    assert_eq!(result.opcode, SbpUsbOpcode::UsbStatus);
    assert_eq!(result.payload, vec![0x42]);
}

#[test]
fn test_deserialize_invalid_data() {
    let result = deserialize(b"not a valid message");
    assert!(result.is_err());
}

#[test]
fn test_deserialize_roundtrip() {
    let original = SbpUsbMessage::new(SbpUsbOpcode::UsbFlush, 7, vec![1, 2, 3]);
    let bytes = original.to_bytes();
    let parsed = deserialize(&bytes).unwrap();
    assert_eq!(parsed.opcode, original.opcode);
    assert_eq!(parsed.app_id, original.app_id);
    assert_eq!(parsed.payload, original.payload);
    assert_eq!(parsed.checksum, original.checksum);
}

#[test]
fn test_deserialize_truncated() {
    let msg = SbpUsbMessage::new(SbpUsbOpcode::UsbWrite, 0, vec![0x00; 128]);
    let bytes = msg.to_bytes();
    let truncated = &bytes[..bytes.len() - 10];
    let result = deserialize(truncated);
    assert!(result.is_err());
}

#[test]
fn test_status_handler_returns_status() {
    let handler = StatusHandler;
    let mut mgr = make_manager();
    let msg = SbpUsbMessage::new(SbpUsbOpcode::UsbStatus, 0, vec![]);
    let resp = handler.handle(&msg, &mut mgr).unwrap();
    assert_eq!(resp.message.opcode, SbpUsbOpcode::UsbStatus);
    assert!(!resp.message.payload.is_empty());
}

#[test]
fn test_read_handler_echoes_payload() {
    let handler = ReadHandler;
    let mut mgr = make_manager();
    let payload = b"/test/file".to_vec();
    let msg = SbpUsbMessage::new(SbpUsbOpcode::UsbRead, 0, payload.clone());
    let resp = handler.handle(&msg, &mut mgr).unwrap();
    assert_eq!(resp.message.payload, payload);
}

#[test]
fn test_write_handler_returns_success() {
    let handler = WriteHandler;
    let mut mgr = make_manager();
    let msg = SbpUsbMessage::new(SbpUsbOpcode::UsbWrite, 0, vec![0x01]);
    let resp = handler.handle(&msg, &mut mgr).unwrap();
    assert_eq!(resp.message.opcode, SbpUsbOpcode::UsbWrite);
}

#[test]
fn write_handler_with_buffer_acks_buffered() {
    let mut mgr = make_manager();
    mgr.write_buffer = Some(WriteBufferStatus { pending_count: 0, dirty_bytes: 0, queued: vec![] });
    let mut msg = SbpUsbMessage::new(SbpUsbOpcode::UsbWrite, 0, vec![0x01]);
    msg.request_id = 9;
    let resp = WriteHandler.handle(&msg, &mut mgr).unwrap();
    assert_eq!(resp.message.opcode, SbpUsbOpcode::UsbWriteAckEvent);
    assert_eq!(resp.message.request_id, 9);
    assert!(resp.message.flags.contains(MessageFlags::ACK_BUFFERED()));
}

#[test]
fn write_handler_queues_payload_in_buffer() {
    let mut mgr = make_manager();
    mgr.write_buffer = Some(WriteBufferStatus { pending_count: 2, dirty_bytes: 100, queued: vec![] });
    let mut msg = SbpUsbMessage::new(SbpUsbOpcode::UsbWrite, 0, b"/data/a.bin".to_vec());
    msg.request_id = 77;
    WriteHandler.handle(&msg, &mut mgr).unwrap();
    let buf = mgr.write_buffer.as_ref().unwrap();
    assert_eq!(buf.pending_count, 3);
    assert_eq!(buf.dirty_bytes, 111);
    assert_eq!(buf.queued.len(), 1);
    assert_eq!(buf.queued[0].path, "/data/a.bin");
    assert_eq!(buf.queued[0].offset, 77);
    assert_eq!(buf.queued[0].data, b"/data/a.bin".to_vec());
    let flush = FlushHandler.handle(&SbpUsbMessage::new(SbpUsbOpcode::UsbFlush, 0, vec![]), &mut mgr).unwrap();
    assert_eq!(flush.message.payload, b"3 pending, 111 dirty bytes".to_vec());
    let mut bad = SbpUsbMessage::new(SbpUsbOpcode::UsbWrite, 0, vec![0x66, 0xFF]);
    bad.request_id = 78;
    WriteHandler.handle(&bad, &mut mgr).unwrap();
    let buf = mgr.write_buffer.as_ref().unwrap();
    assert_eq!(buf.queued[1].path, "f\u{FFFD}");
    assert!(EjectHandler.handle(&SbpUsbMessage::new(SbpUsbOpcode::UsbEject, 0, vec![]), &mut mgr).is_err());
}

#[test]
fn write_handler_without_buffer_leaves_context() {
    let mut mgr = make_manager();
    let msg = SbpUsbMessage::new(SbpUsbOpcode::UsbWrite, 0, vec![1, 2, 3]);
    let resp = WriteHandler.handle(&msg, &mut mgr).unwrap();
    assert_eq!(resp.message.payload, vec![1, 2, 3]);
    assert!(mgr.write_buffer.is_none());
}

#[test]
fn test_flush_handler_returns_count() {
    let handler = FlushHandler;
    let mut mgr = make_manager();
    let msg = SbpUsbMessage::new(SbpUsbOpcode::UsbFlush, 0, vec![]);
    let resp = handler.handle(&msg, &mut mgr).unwrap();
    assert_eq!(resp.message.opcode, SbpUsbOpcode::UsbFlush);
}

#[test]
fn flush_handler_reports_buffer() {
    let mut mgr = make_manager();
    mgr.write_buffer = Some(WriteBufferStatus { pending_count: 3, dirty_bytes: 12288, queued: vec![] });
    let msg = SbpUsbMessage::new(SbpUsbOpcode::UsbFlush, 0, vec![]);
    let resp = FlushHandler.handle(&msg, &mut mgr).unwrap();
    assert_eq!(resp.message.payload, b"3 pending, 12288 dirty bytes".to_vec());
}

#[test]
fn test_eject_handler_safe_when_no_pending() {
    let handler = EjectHandler;
    let mut mgr = make_manager();
    let msg = SbpUsbMessage::new(SbpUsbOpcode::UsbEject, 0, vec![]);
    let result = handler.handle(&msg, &mut mgr);
    assert!(result.is_ok());
}

#[test]
fn eject_handler_refuses_pending_writes() {
    let mut mgr = make_manager();
    mgr.write_buffer = Some(WriteBufferStatus { pending_count: 1, dirty_bytes: 10, queued: vec![] });
    let msg = SbpUsbMessage::new(SbpUsbOpcode::UsbEject, 0, vec![]);
    let err = EjectHandler.handle(&msg, &mut mgr).unwrap_err();
    assert_eq!(err.to_string(), "Unsafe to eject: pending writes exist");
}

#[test]
fn test_heartbeat_sets_event_flag() {
    let handler = HeartbeatHandler;
    let mut mgr = make_manager();
    let msg = SbpUsbMessage::new(SbpUsbOpcode::UsbHeartbeat, 0, vec![]);
    let resp = handler.handle(&msg, &mut mgr).unwrap();
    assert!(resp.message.flags.contains(MessageFlags::EVENT()));
}

#[test]
fn test_mount_handler_uses_config_default() {
    let handler = MountHandler;
    let mut mgr = make_manager();
    let msg = SbpUsbMessage::new(SbpUsbOpcode::UsbMount, 0, vec![]);
    let resp = handler.handle(&msg, &mut mgr).unwrap();
    let text = String::from_utf8_lossy(&resp.message.payload);
    assert!(text.contains("mounted at"));
    assert_eq!(text, "mounted at /mnt/volt-usb");
    let msg = SbpUsbMessage::new(SbpUsbOpcode::UsbMount, 0, b"/media/x".to_vec());
    let resp = handler.handle(&msg, &mut mgr).unwrap();
    assert_eq!(resp.message.payload, b"mounted at /media/x".to_vec());
}

#[test]
fn metrics_handler_returns_snapshot_json() {
    let mut mgr = make_manager();
    let msg = SbpUsbMessage::new(SbpUsbOpcode::UsbMetricsSnapshot, 0, vec![]);
    let resp = MetricsHandler.handle(&msg, &mut mgr).unwrap();
    assert_eq!(resp.message.payload, mgr.metrics_json);
}

#[test]
fn test_opcode_method_returns_correct() {
    assert_eq!(StatusHandler.opcode(), SbpUsbOpcode::UsbStatus);
    assert_eq!(ReadHandler.opcode(), SbpUsbOpcode::UsbRead);
    assert_eq!(WriteHandler.opcode(), SbpUsbOpcode::UsbWrite);
    assert_eq!(FlushHandler.opcode(), SbpUsbOpcode::UsbFlush);
    assert_eq!(EjectHandler.opcode(), SbpUsbOpcode::UsbEject);
    assert_eq!(HeartbeatHandler.opcode(), SbpUsbOpcode::UsbHeartbeat);
    assert_eq!(MountHandler.opcode(), SbpUsbOpcode::UsbMount);
    assert_eq!(MetricsHandler.opcode(), SbpUsbOpcode::UsbMetricsSnapshot);
}

#[test]
fn message_test_to_bytes_roundtrip() {
    let original = sample_message();
    let bytes = original.to_bytes();
    let decoded = SbpUsbMessage::from_bytes(&bytes).unwrap();
    assert_eq!(decoded.opcode, original.opcode);
    assert_eq!(decoded.flags, original.flags);
    assert_eq!(decoded.request_id, original.request_id);
    assert_eq!(decoded.timestamp_us, original.timestamp_us);
    assert_eq!(decoded.app_id, original.app_id);
    assert_eq!(decoded.payload, original.payload);
    assert!(decoded.checksum != 0);
}

#[test]
fn test_from_bytes_invalid_magic() {
    let data = vec![0x00; 40];
    let result = SbpUsbMessage::from_bytes(&data);
    assert!(result.is_err());
}

#[test]
fn test_from_bytes_too_short() {
    let data = vec![0x00; 10];
    let result = SbpUsbMessage::from_bytes(&data);
    assert!(result.is_err());
}

#[test]
fn test_from_bytes_checksum_mismatch() {
    let mut msg = sample_message();
    msg.checksum = 0;
    let mut bytes = msg.to_bytes();
    bytes[SBP_USB_HEADER_SIZE] ^= 0xFF;
    let result = SbpUsbMessage::from_bytes(&bytes);
    assert!(result.is_err());
}

#[test]
fn test_header_size_constant() {
    assert_eq!(SBP_USB_HEADER_SIZE, 36);
}

#[test]
fn test_magic_constant_value() {
    assert_eq!(SBP_USB_MAGIC, 0x5553424D);
}

#[test]
fn test_to_bytes_header_version() {
    let msg = sample_message();
    let bytes = msg.to_bytes();
    assert_eq!(bytes[4], 1);
}

#[test]
fn test_new_preserves_payload() {
    let payload = vec![1, 2, 3, 4, 5];
    let msg = SbpUsbMessage::new(SbpUsbOpcode::UsbStatus, 7, payload.clone());
    assert_eq!(msg.payload, payload);
}

#[test]
fn opcode_test_from_byte_valid() {
    for code in 0x30..=0x3F {
        assert!(SbpUsbOpcode::from_byte(code).is_ok());
    }
}

#[test]
fn opcode_test_from_byte_invalid() {
    assert!(SbpUsbOpcode::from_byte(0x00).is_err());
    assert!(SbpUsbOpcode::from_byte(0x29).is_err());
    assert!(SbpUsbOpcode::from_byte(0x40).is_err());
    assert!(SbpUsbOpcode::from_byte(0xFF).is_err());
}

#[test]
fn test_name_not_empty() {
    for code in 0x30..=0x3F {
        let op = SbpUsbOpcode::from_byte(code).unwrap();
        assert!(!op.name().is_empty());
    }
}

#[test]
fn test_requires_response_heartbeat_false() {
    let hb = SbpUsbOpcode::UsbHeartbeat;
    assert!(!hb.requires_response());
}

#[test]
fn test_requires_response_status_true() {
    assert!(SbpUsbOpcode::UsbStatus.requires_response());
}

#[test]
fn opcode_byte_roundtrip_all() {
    for code in 0x30..=0x3F {
        let op = SbpUsbOpcode::from_byte(code).unwrap();
        assert_eq!(op.to_byte(), code);
    }
}

#[test]
fn test_required_for_matches_opcode_permission() {
    for code in 0x30..=0x3F {
        let op = SbpUsbOpcode::from_byte(code).unwrap();
        assert_eq!(SbpUsbPermission::required_for(op), op.permission());
    }
}

#[test]
fn test_internal_bit_position() {
    let internal = SbpUsbPermission::INTERNAL();
    assert_eq!(internal.bits(), 1u32 << 31);
}

#[test]
fn test_empty_permission() {
    let empty = SbpUsbPermission::empty();
    assert!(empty.is_empty());
}

#[test]
fn test_parse_request_valid() {
    let msg = SbpUsbMessage::new(SbpUsbOpcode::UsbRead, 1, vec![0x00]);
    let bytes = msg.to_bytes();
    let parsed = parse_request(&bytes).unwrap();
    assert_eq!(parsed.opcode, SbpUsbOpcode::UsbRead);
}

#[test]
fn test_parse_request_no_request_flag() {
    let mut msg = SbpUsbMessage::new(SbpUsbOpcode::UsbHeartbeat, 1, vec![]);
    msg.flags = MessageFlags::EVENT();
    let bytes = msg.to_bytes();
    let result = parse_request(&bytes);
    assert!(result.is_err());
}

#[test]
fn test_parse_request_invalid_data() {
    let result = parse_request(b"too short");
    assert!(result.is_err());
}

#[test]
fn test_parse_request_roundtrip() {
    let original = SbpUsbMessage::new(SbpUsbOpcode::UsbWrite, 99, vec![0x01, 0x02]);
    let bytes = original.to_bytes();
    let parsed = parse_request(&bytes).unwrap();
    assert_eq!(parsed.app_id, 99);
    assert_eq!(parsed.payload, vec![0x01, 0x02]);
}

#[test]
fn test_parse_request_checksum_validated() {
    let msg = SbpUsbMessage::new(SbpUsbOpcode::UsbFlush, 0, vec![]);
    let mut bytes = msg.to_bytes();
    bytes[0] ^= 0xFF;
    let result = parse_request(&bytes);
    assert!(result.is_err());
}

#[test]
fn response_test_to_bytes_roundtrip() {
    let resp = SbpUsbResponse::success(SbpUsbOpcode::UsbRead, 1, vec![0xAA, 0xBB]);
    let bytes = resp.to_bytes();
    let decoded = SbpUsbMessage::from_bytes(&bytes).unwrap();
    assert_eq!(decoded.opcode, SbpUsbOpcode::UsbRead);
    assert_eq!(decoded.request_id, 1);
    assert_eq!(decoded.payload, vec![0xAA, 0xBB]);
}

#[test]
fn test_serialize_message() {
    let msg = SbpUsbMessage::new(SbpUsbOpcode::UsbRead, 1, vec![0x01]);
    let bytes = serialize(&msg);
    assert!(!bytes.is_empty());
    let decoded = SbpUsbMessage::from_bytes(&bytes).unwrap();
    assert_eq!(decoded.opcode, msg.opcode);
}

#[test]
fn test_serialize_empty_payload() {
    let msg = SbpUsbMessage::new(SbpUsbOpcode::UsbHeartbeat, 0, vec![]);
    let bytes = serialize(&msg);
    assert!(bytes.len() >= 40);
}

#[test]
fn test_serialize_large_payload() {
    let payload = vec![0xFF; 4096];
    let msg = SbpUsbMessage::new(SbpUsbOpcode::UsbWrite, 2, payload.clone());
    let bytes = serialize(&msg);
    let decoded = SbpUsbMessage::from_bytes(&bytes).unwrap();
    assert_eq!(decoded.payload.len(), 4096);
}

use volt_usb_manager::common::error::VumError;

#[test]
fn test_deserialize_preserves_flags() {
    let mut msg = SbpUsbMessage::new(SbpUsbOpcode::UsbHeartbeat, 0, vec![]);
    msg.flags = MessageFlags::EVENT();
    let bytes = msg.to_bytes();
    let parsed = deserialize(&bytes).unwrap();
    assert!(parsed.flags.contains(MessageFlags::EVENT()));
}

#[test]
fn test_new_sets_magic_version_and_request_flag() {
    let msg = sample_message();
    assert_eq!(msg.opcode, SbpUsbOpcode::UsbWrite);
    assert!(msg.flags.contains(MessageFlags::REQUEST()));
    assert_eq!(msg.app_id, 42);
    assert_eq!(msg.payload, vec![0xAB, 0xCD]);
}

#[test]
fn test_compute_checksum_deterministic() {
    let h = b"header_data";
    let p = b"payload_data";
    let c1 = SbpUsbMessage::compute_checksum(h, p);
    let c2 = SbpUsbMessage::compute_checksum(h, p);
    assert_eq!(c1, c2);
}

#[test]
fn test_compute_checksum_different_headers() {
    let c1 = SbpUsbMessage::compute_checksum(b"header1", b"payload");
    let c2 = SbpUsbMessage::compute_checksum(b"header2", b"payload");
    assert_ne!(c1, c2);
}

#[test]
fn test_permission_read_status() {
    let perm = SbpUsbOpcode::UsbStatus.permission();
    assert!(perm.contains(SbpUsbPermission::CAP_READ_STATUS()));
}

#[test]
fn test_permission_read_file() {
    let perm = SbpUsbOpcode::UsbRead.permission();
    assert!(perm.contains(SbpUsbPermission::CAP_READ_FILE()));
}

#[test]
fn test_permission_write_file() {
    let perm = SbpUsbOpcode::UsbWrite.permission();
    assert!(perm.contains(SbpUsbPermission::CAP_WRITE_FILE()));
}

#[test]
fn test_permission_admin_storage() {
    let perm = SbpUsbOpcode::UsbEject.permission();
    assert!(perm.contains(SbpUsbPermission::CAP_ADMIN_STORAGE()));
}

#[test]
fn test_permission_internal() {
    let perm = SbpUsbOpcode::UsbDeviceEvent.permission();
    assert!(perm.contains(SbpUsbPermission::INTERNAL()));
}

#[test]
fn test_admin_helper() {
    let perm = SbpUsbPermission::admin();
    assert!(perm.contains(SbpUsbPermission::CAP_ADMIN_STORAGE()));
    assert!(!perm.contains(SbpUsbPermission::CAP_READ_STATUS()));
    assert!(!perm.contains(SbpUsbPermission::INTERNAL()));
}

#[test]
fn test_bitflag_combinations() {
    let combined = SbpUsbPermission::CAP_READ_STATUS()
        .union(SbpUsbPermission::CAP_READ_FILE())
        .union(SbpUsbPermission::CAP_WRITE_FILE());
    assert!(combined.contains(SbpUsbPermission::CAP_READ_STATUS()));
    assert!(combined.contains(SbpUsbPermission::CAP_READ_FILE()));
    assert!(combined.contains(SbpUsbPermission::CAP_WRITE_FILE()));
    assert!(!combined.contains(SbpUsbPermission::CAP_ADMIN_STORAGE()));
}

#[test]
fn test_success_sets_response_flag() {
    let resp = SbpUsbResponse::success(SbpUsbOpcode::UsbStatus, 42, vec![0x01]);
    assert!(resp.message.flags.contains(MessageFlags::RESPONSE()));
    assert!(!resp.message.flags.contains(MessageFlags::ERROR()));
    assert_eq!(resp.message.request_id, 42);
}

#[test]
fn test_error_sets_error_flag() {
    let err = VumError::DeviceNotFound;
    let resp = SbpUsbResponse::error(7, &err);
    assert!(resp.message.flags.contains(MessageFlags::RESPONSE()));
    assert!(resp.message.flags.contains(MessageFlags::ERROR()));
    assert_eq!(resp.message.request_id, 7);
}

#[test]
fn test_ack_buffered_has_ack_flag() {
    let resp = SbpUsbResponse::ack_buffered(99);
    assert!(resp.message.flags.contains(MessageFlags::RESPONSE()));
    assert!(resp.message.flags.contains(MessageFlags::ACK_BUFFERED()));
    assert!(!resp.message.flags.contains(MessageFlags::ACK_DURABLE()));
    assert_eq!(resp.message.request_id, 99);
}

#[test]
fn test_ack_durable_has_durable_flag() {
    let resp = SbpUsbResponse::ack_durable(88);
    assert!(resp.message.flags.contains(MessageFlags::ACK_DURABLE()));
    assert_eq!(resp.message.request_id, 88);
}

#[test]
fn test_error_payload_contains_message() {
    let err = VumError::PermissionDenied("access denied".into());
    let resp = SbpUsbResponse::error(0, &err);
    let payload_str = String::from_utf8_lossy(&resp.message.payload);
    assert!(payload_str.contains("access denied"));
}

#[test]
fn message_error_texts() {
    let e = SbpUsbMessage::from_bytes(&[0u8; 40]).unwrap_err();
    assert_eq!(e.to_string(), "Invalid SBP message: invalid magic: 0x00000000");
    let mut bytes = sample_message().to_bytes();
    bytes[4] = 9;
    let e = SbpUsbMessage::from_bytes(&bytes).unwrap_err();
    assert_eq!(e.to_string(), "Invalid SBP message: unsupported version 9");
    let mut bytes = sample_message().to_bytes();
    bytes[5] = 0x20;
    let e = SbpUsbMessage::from_bytes(&bytes).unwrap_err();
    assert_eq!(e.to_string(), "Unsupported opcode: 32");
    let mut bytes = sample_message().to_bytes();
    let last = bytes.len() - 1;
    bytes[last] ^= 0xFF;
    assert_eq!(SbpUsbMessage::from_bytes(&bytes).unwrap_err().to_string(), "Checksum mismatch");
}

#[test]
fn lossy_text_reads_utf8_and_replaces_invalid_bytes() {
    assert_eq!(lossy_text(b"/mnt/usb"), "/mnt/usb");
    assert_eq!(lossy_text(&[0x61, 0xFF, 0x62]), "a\u{FFFD}b");
    assert_eq!(lossy_text(&[]), "");
}
