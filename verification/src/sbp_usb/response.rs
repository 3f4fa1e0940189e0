use vstd::prelude::*;

use crate::common::error::{VumError, spec_error_text};
use crate::sbp_usb::message::{MessageFlags, SbpUsbMessage, spec_message_bytes, spec_message_checksum};
use crate::sbp_usb::opcode::SbpUsbOpcode;
use crate::util::text::string_bytes;
use crate::util::bytes::append_bytes;
use vstd::utf8::encode_utf8;

verus! {

/// A response to an SBP-USB request.
#[derive(Debug, Clone)]
pub struct SbpUsbResponse {
    pub message: SbpUsbMessage,
}

fn response_message(opcode: SbpUsbOpcode, request_id: u64, payload: Vec<u8>, flags: MessageFlags) -> (m: SbpUsbMessage)
    ensures
        m.opcode == opcode,
        m.flags == flags,
        m.request_id == request_id,
        m.timestamp_us == 0,
        m.app_id == 0,
        m.payload@ == payload@,
{
    let mut msg = SbpUsbMessage::new(opcode, 0, payload);
    msg.flags = flags;
    msg.request_id = request_id;
    msg
}

impl SbpUsbResponse {
    /// A successful response carrying `payload`, flagged RESPONSE, for the
    /// given request.
    pub fn success(opcode: SbpUsbOpcode, request_id: u64, payload: Vec<u8>) -> (r: Self)
        ensures
            r.message.opcode == opcode,
            r.message.flags.spec_bits() == 0x0002,
            r.message.request_id == request_id,
            r.message.timestamp_us == 0,
            r.message.app_id == 0,
            r.message.payload@ == payload@,
    {
        SbpUsbResponse { message: response_message(opcode, request_id, payload, MessageFlags::RESPONSE()) }
    }

    /// An error response: a status message flagged RESPONSE and ERROR whose
    /// payload is the error's text in UTF-8.
    pub fn error(request_id: u64, error: &VumError) -> (r: Self)
        ensures
            r.message.opcode == SbpUsbOpcode::UsbStatus,
            r.message.flags.spec_bits() == 0x0006,
            r.message.request_id == request_id,
            r.message.timestamp_us == 0,
            r.message.app_id == 0,
            r.message.payload@ == encode_utf8(spec_error_text(*error)),
    {
        let text = error.to_string();
        let mut payload: Vec<u8> = Vec::new();
        append_bytes(&mut payload, string_bytes(&text));
        let flags = MessageFlags::RESPONSE().union(MessageFlags::ERROR());
        assert(0x0002u16 | 0x0004u16 == 0x0006u16) by (bit_vector);
        SbpUsbResponse { message: response_message(SbpUsbOpcode::UsbStatus, request_id, payload, flags) }
    }

    /// Acknowledges that a write was accepted into the buffer.
    pub fn ack_buffered(request_id: u64) -> (r: Self)
        ensures
            r.message.opcode == SbpUsbOpcode::UsbWriteAckEvent,
            r.message.flags.spec_bits() == 0x0012,
            r.message.request_id == request_id,
            r.message.timestamp_us == 0,
            r.message.app_id == 0,
            r.message.payload@.len() == 0,
    {
        let flags = MessageFlags::RESPONSE().union(MessageFlags::ACK_BUFFERED());
        assert(0x0002u16 | 0x0010u16 == 0x0012u16) by (bit_vector);
        SbpUsbResponse { message: response_message(SbpUsbOpcode::UsbWriteAckEvent, request_id, Vec::new(), flags) }
    }

    /// Acknowledges that a write reached durable storage.
    pub fn ack_durable(request_id: u64) -> (r: Self)
        ensures
            r.message.opcode == SbpUsbOpcode::UsbWriteAckEvent,
            r.message.flags.spec_bits() == 0x0022,
            r.message.request_id == request_id,
            r.message.timestamp_us == 0,
            r.message.app_id == 0,
            r.message.payload@.len() == 0,
    {
        let flags = MessageFlags::RESPONSE().union(MessageFlags::ACK_DURABLE());
        assert(0x0002u16 | 0x0020u16 == 0x0022u16) by (bit_vector);
        SbpUsbResponse { message: response_message(SbpUsbOpcode::UsbWriteAckEvent, request_id, Vec::new(), flags) }
    }

    /// The wire form of the response message.
    pub fn to_bytes(&self) -> (b: Vec<u8>)
        ensures
            b@ == spec_message_bytes(self.message@),
    {
        self.message.to_bytes()
    }
}

} // verus!
