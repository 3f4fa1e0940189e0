use vstd::prelude::*;
use vstd::bytes::*;
use vstd::slice::{slice_subrange, slice_to_vec};

use crate::common::error::VumError;
use crate::common::result::VumResult;
use crate::journal::checksum::{crc32fast_hash, spec_crc32};
use crate::sbp_usb::opcode::{SbpUsbOpcode, spec_opcode_byte, spec_opcode_from_byte, lemma_opcode_byte_roundtrip};
use crate::util::bytes::{append_bytes, le32_at, le64_at, lemma_le_bytes};
use crate::util::number::{decimal_string, hex_string_padded, spec_decimal, spec_hex, spec_zero_pad};
use crate::util::text::{concat_str, str_to_string};

verus! {

broadcast use vstd::seq_lib::group_seq_properties;

/// Magic number that opens every SBP-USB message ("USBM").
pub const SBP_USB_MAGIC: u32 = 0x5553424D;
/// The protocol version this library speaks.
pub const SBP_USB_VERSION: u8 = 1;
/// Size of the fixed message header.
pub const SBP_USB_HEADER_SIZE: usize = 36;

/// The flag bits that have a meaning.
pub const MESSAGE_FLAGS_KNOWN_BITS: u16 = 0x003F;

/// Flags of an SBP-USB message, one bit each.
#[derive(Debug, Clone, Copy, PartialEq, Eq, Hash, Structural)]
pub struct MessageFlags(u16);

impl MessageFlags {
    pub closed spec fn spec_bits(self) -> u16 {
        self.0
    }

    /// The flags hold only bits that have a meaning.
    pub open spec fn spec_valid(self) -> bool {
        self.spec_bits() & 0xFFC0 == 0
    }

    /// The message is a request (bit 0).
    #[allow(non_snake_case)]
    pub fn REQUEST() -> (f: Self)
        ensures
            f.spec_bits() == 0x0001,
            f.spec_valid(),
    {
        assert(0x0001u16 & 0xFFC0 == 0) by (bit_vector);
        MessageFlags(0x0001)
    }

    /// The message is a response (bit 1).
    #[allow(non_snake_case)]
    pub fn RESPONSE() -> (f: Self)
        ensures
            f.spec_bits() == 0x0002,
            f.spec_valid(),
    {
        assert(0x0002u16 & 0xFFC0 == 0) by (bit_vector);
        MessageFlags(0x0002)
    }

    /// The message reports an error (bit 2).
    #[allow(non_snake_case)]
    pub fn ERROR() -> (f: Self)
        ensures
            f.spec_bits() == 0x0004,
            f.spec_valid(),
    {
        assert(0x0004u16 & 0xFFC0 == 0) by (bit_vector);
        MessageFlags(0x0004)
    }

    /// The message is an event (bit 3).
    #[allow(non_snake_case)]
    pub fn EVENT() -> (f: Self)
        ensures
            f.spec_bits() == 0x0008,
            f.spec_valid(),
    {
        assert(0x0008u16 & 0xFFC0 == 0) by (bit_vector);
        MessageFlags(0x0008)
    }

    /// A write was accepted into the buffer (bit 4).
    #[allow(non_snake_case)]
    pub fn ACK_BUFFERED() -> (f: Self)
        ensures
            f.spec_bits() == 0x0010,
            f.spec_valid(),
    {
        assert(0x0010u16 & 0xFFC0 == 0) by (bit_vector);
        MessageFlags(0x0010)
    }

    /// A write reached durable storage (bit 5).
    #[allow(non_snake_case)]
    pub fn ACK_DURABLE() -> (f: Self)
        ensures
            f.spec_bits() == 0x0020,
            f.spec_valid(),
    {
        assert(0x0020u16 & 0xFFC0 == 0) by (bit_vector);
        MessageFlags(0x0020)
    }

    /// No flags.
    pub fn empty() -> (f: Self)
        ensures
            f.spec_bits() == 0,
            f.spec_valid(),
    {
        assert(0u16 & 0xFFC0 == 0) by (bit_vector);
        MessageFlags(0)
    }

    /// The raw bits.
    pub fn bits(&self) -> (b: u16)
        ensures
            b == self.spec_bits(),
    {
        self.0
    }

    /// The flags with these bits, or `None` if any bit has no meaning.
    pub fn from_bits(bits: u16) -> (r: Option<Self>)
        ensures
            r is Some <==> bits & 0xFFC0 == 0,
            r matches Some(f) ==> f.spec_bits() == bits && f.spec_valid(),
    {
        if bits & 0xFFC0 == 0 {
            Some(MessageFlags(bits))
        } else {
            None
        }
    }

    /// Whether every flag of `other` is set.
    pub fn contains(&self, other: MessageFlags) -> (r: bool)
        ensures
            r == (self.spec_bits() & other.spec_bits() == other.spec_bits()),
    {
        self.0 & other.0 == other.0
    }

    /// The flags of both.
    pub fn union(&self, other: MessageFlags) -> (f: Self)
        ensures
            f.spec_bits() == self.spec_bits() | other.spec_bits(),
            self.spec_valid() && other.spec_valid() ==> f.spec_valid(),
    {
        let a = self.0;
        let b = other.0;
        assert(a & 0xFFC0 == 0 && b & 0xFFC0 == 0 ==> (a | b) & 0xFFC0 == 0) by (bit_vector);
        MessageFlags(a | b)
    }
}

/// A message of the SBP-USB protocol.
#[derive(Debug, Clone)]
pub struct SbpUsbMessage {
    pub opcode: SbpUsbOpcode,
    pub flags: MessageFlags,
    pub request_id: u64,
    pub timestamp_us: u64,
    pub app_id: u64,
    pub payload: Vec<u8>,
    pub checksum: u32,
}

/// The mathematical content of a message.
pub struct MessageView {
    pub opcode: SbpUsbOpcode,
    pub flags: u16,
    pub request_id: u64,
    pub timestamp_us: u64,
    pub app_id: u64,
    pub payload: Seq<u8>,
    pub checksum: u32,
}

impl View for SbpUsbMessage {
    type V = MessageView;

    open spec fn view(&self) -> MessageView {
        MessageView {
            opcode: self.opcode,
            flags: self.flags.spec_bits(),
            request_id: self.request_id,
            timestamp_us: self.timestamp_us,
            app_id: self.app_id,
            payload: self.payload@,
            checksum: self.checksum,
        }
    }
}

/// The 36-byte header: magic, version, opcode, flags, request id, timestamp,
/// application id and payload length (truncated to `u32`), little-endian.
pub open spec fn spec_header(m: MessageView) -> Seq<u8> {
    spec_u32_to_le_bytes(SBP_USB_MAGIC) + seq![SBP_USB_VERSION] + seq![spec_opcode_byte(m.opcode)]
        + spec_u16_to_le_bytes(m.flags) + spec_u64_to_le_bytes(m.request_id)
        + spec_u64_to_le_bytes(m.timestamp_us) + spec_u64_to_le_bytes(m.app_id)
        + spec_u32_to_le_bytes(m.payload.len() as u32)
}

/// The checksum a message carries on the wire: the CRC-32 of header and
/// payload.
pub open spec fn spec_message_checksum(m: MessageView) -> u32 {
    spec_crc32(spec_header(m) + m.payload)
}

/// The wire form: header, payload, and the CRC-32 of both. The stored
/// `checksum` field plays no part; it is computed afresh.
pub open spec fn spec_message_bytes(m: MessageView) -> Seq<u8> {
    spec_header(m) + m.payload + spec_u32_to_le_bytes(spec_message_checksum(m))
}

/// Why bytes are not an SBP-USB message.
pub enum MessageParseError {
    TooShort,
    BadMagic,
    BadVersion,
    BadOpcode(u8),
    BadFlags,
    Truncated,
    ChecksumMismatch,
}

/// Reading a message from the front of `d`.
pub open spec fn spec_parse_message(d: Seq<u8>) -> Result<MessageView, MessageParseError> {
    if d.len() < 40 {
        Err(MessageParseError::TooShort)
    } else if le32_at(d, 0) != SBP_USB_MAGIC {
        Err(MessageParseError::BadMagic)
    } else if d[4] != SBP_USB_VERSION {
        Err(MessageParseError::BadVersion)
    } else if spec_opcode_from_byte(d[5]) is None {
        Err(MessageParseError::BadOpcode(d[5]))
    } else if spec_u16_from_le_bytes(d.subrange(6, 8)) & 0xFFC0 != 0 {
        Err(MessageParseError::BadFlags)
    } else {
        let plen = le32_at(d, 32) as int;
        if d.len() < 36 + plen + 4 {
            Err(MessageParseError::Truncated)
        } else if spec_crc32(d.subrange(0, 36 + plen)) != le32_at(d, 36 + plen) {
            Err(MessageParseError::ChecksumMismatch)
        } else {
            Ok(MessageView {
                opcode: spec_opcode_from_byte(d[5])->Some_0,
                flags: spec_u16_from_le_bytes(d.subrange(6, 8)),
                request_id: le64_at(d, 8),
                timestamp_us: le64_at(d, 16),
                app_id: le64_at(d, 24),
                payload: d.subrange(36, 36 + plen),
                checksum: le32_at(d, 36 + plen),
            })
        }
    }
}

/// The text of an `InvalidSbpMessage` error for a parse failure of `d`.
pub open spec fn spec_message_error_text(d: Seq<u8>, e: MessageParseError) -> Seq<char> {
    match e {
        MessageParseError::TooShort => "message too short"@,
        MessageParseError::BadMagic => "invalid magic: 0x"@ + spec_zero_pad(spec_hex(le32_at(d, 0) as nat), 8),
        MessageParseError::BadVersion => "unsupported version "@ + spec_decimal(d[4] as nat),
        MessageParseError::BadFlags => "invalid flags"@,
        MessageParseError::Truncated => "truncated payload"@,
        _ => Seq::empty(),
    }
}

/// The error `from_bytes` reports when reading `d` fails with `e`: an
/// unknown opcode is `UnsupportedOpcode`, a checksum that does not match
/// `ChecksumMismatch`, and any other failure `InvalidSbpMessage` with the
/// text of `spec_message_error_text`.
pub open spec fn spec_message_error(d: Seq<u8>, e: MessageParseError, err: VumError) -> bool {
    match e {
        MessageParseError::BadOpcode(b) => err == VumError::UnsupportedOpcode(b),
        MessageParseError::ChecksumMismatch => err is ChecksumMismatch,
        _ => err matches VumError::InvalidSbpMessage(m) && m@ == spec_message_error_text(d, e),
    }
}

/// Sending a message and reading it back, with any bytes after it, gives
/// the same message, its checksum being the one computed on the way out.
pub proof fn lemma_message_roundtrip(m: MessageView, rest: Seq<u8>)
    requires
        m.flags & 0xFFC0 == 0,
        m.payload.len() <= u32::MAX,
    ensures
        spec_parse_message(spec_message_bytes(m) + rest)
            == Ok::<MessageView, MessageParseError>(MessageView { checksum: spec_message_checksum(m), ..m }),
        spec_message_bytes(m).len() == 40 + m.payload.len(),
{
    lemma_le_bytes();
    lemma_opcode_byte_roundtrip(m.opcode);
    let h = spec_header(m);
    let d = spec_message_bytes(m) + rest;
    let plen = m.payload.len() as int;
    assert((m.payload.len() as u32) as int == plen);
    assert(h.len() == 36);
    assert(d.subrange(0, 4) =~= spec_u32_to_le_bytes(SBP_USB_MAGIC));
    assert(d[4] == SBP_USB_VERSION);
    assert(d[5] == spec_opcode_byte(m.opcode));
    assert(d.subrange(6, 8) =~= spec_u16_to_le_bytes(m.flags));
    assert(d.subrange(8, 16) =~= spec_u64_to_le_bytes(m.request_id));
    assert(d.subrange(16, 24) =~= spec_u64_to_le_bytes(m.timestamp_us));
    assert(d.subrange(24, 32) =~= spec_u64_to_le_bytes(m.app_id));
    assert(d.subrange(32, 36) =~= spec_u32_to_le_bytes(m.payload.len() as u32));
    assert(d.subrange(0, 36 + plen) =~= h + m.payload);
    assert(d.subrange(36, 36 + plen) =~= m.payload);
    assert(d.subrange(36 + plen, 40 + plen) =~= spec_u32_to_le_bytes(spec_message_checksum(m)));
    assert(spec_parse_message(d) is Ok);
    assert(spec_parse_message(d)->Ok_0.payload =~= m.payload);
}

impl SbpUsbMessage {
    /// A request message: REQUEST flag, request id and timestamp zero, and
    /// the checksum of its header and payload.
    pub fn new(opcode: SbpUsbOpcode, app_id: u64, payload: Vec<u8>) -> (m: Self)
        ensures
            m.opcode == opcode,
            m.flags.spec_bits() == 0x0001,
            m.request_id == 0,
            m.timestamp_us == 0,
            m.app_id == app_id,
            m.payload@ == payload@,
            m.checksum == spec_message_checksum(m@),
    {
        let msg = SbpUsbMessage {
            opcode,
            flags: MessageFlags::REQUEST(),
            request_id: 0,
            timestamp_us: 0,
            app_id,
            payload,
            checksum: 0,
        };
        let header = msg.encode_header();
        let checksum = Self::compute_checksum(header.as_slice(), msg.payload.as_slice());
        SbpUsbMessage { checksum, ..msg }
    }

    fn encode_header(&self) -> (buf: Vec<u8>)
        ensures
            buf@ == spec_header(self@),
    {
        let mut buf: Vec<u8> = Vec::new();
        append_bytes(&mut buf, u32_to_le_bytes(SBP_USB_MAGIC).as_slice());
        buf.push(SBP_USB_VERSION);
        buf.push(self.opcode.to_byte());
        append_bytes(&mut buf, u16_to_le_bytes(self.flags.bits()).as_slice());
        append_bytes(&mut buf, u64_to_le_bytes(self.request_id).as_slice());
        append_bytes(&mut buf, u64_to_le_bytes(self.timestamp_us).as_slice());
        append_bytes(&mut buf, u64_to_le_bytes(self.app_id).as_slice());
        append_bytes(&mut buf, u32_to_le_bytes(self.payload.len() as u32).as_slice());
        assert(buf@ =~= spec_header(self@));
        buf
    }

    /// The wire form: header, payload and a freshly computed checksum.
    pub fn to_bytes(&self) -> (buf: Vec<u8>)
        ensures
            buf@ == spec_message_bytes(self@),
    {
        let header = self.encode_header();
        let checksum = Self::compute_checksum(header.as_slice(), self.payload.as_slice());
        let mut buf = header;
        append_bytes(&mut buf, self.payload.as_slice());
        append_bytes(&mut buf, u32_to_le_bytes(checksum).as_slice());
        buf
    }

    /// Reads a message from the front of `data`. Short or malformed input is
    /// `InvalidSbpMessage`, an unknown opcode `UnsupportedOpcode`, and a
    /// checksum that does not match `ChecksumMismatch`.
    pub fn from_bytes(data: &[u8]) -> (r: VumResult<Self>)
        ensures
            r is Ok <==> spec_parse_message(data@) is Ok,
            r matches Ok(m) ==> spec_parse_message(data@) == Ok::<MessageView, MessageParseError>(m@) && m.flags.spec_valid(),
            r matches Err(e) ==> spec_message_error(data@, spec_parse_message(data@)->Err_0, e),
    {
        proof { lemma_le_bytes(); }
        let len = data.len();
        if len < SBP_USB_HEADER_SIZE + 4 {
            return Err(VumError::InvalidSbpMessage(str_to_string("message too short")));
        }
        let magic = u32_from_le_bytes(slice_subrange(data, 0, 4));
        if magic != SBP_USB_MAGIC {
            let hex = hex_string_padded(magic as u64, 8);
            return Err(VumError::InvalidSbpMessage(concat_str("invalid magic: 0x", hex.as_str())));
        }
        let version = data[4];
        if version != SBP_USB_VERSION {
            let v = decimal_string(version as u64);
            return Err(VumError::InvalidSbpMessage(concat_str("unsupported version ", v.as_str())));
        }
        let opcode = match SbpUsbOpcode::from_byte(data[5]) {
            Ok(op) => op,
            Err(e) => {
                return Err(e);
            },
        };
        let flags = match MessageFlags::from_bits(u16_from_le_bytes(slice_subrange(data, 6, 8))) {
            Some(f) => f,
            None => {
                return Err(VumError::InvalidSbpMessage(str_to_string("invalid flags")));
            },
        };
        let request_id = u64_from_le_bytes(slice_subrange(data, 8, 16));
        let timestamp_us = u64_from_le_bytes(slice_subrange(data, 16, 24));
        let app_id = u64_from_le_bytes(slice_subrange(data, 24, 32));
        let payload_len = u32_from_le_bytes(slice_subrange(data, 32, 36)) as usize;
        if payload_len > len - 40 {
            return Err(VumError::InvalidSbpMessage(str_to_string("truncated payload")));
        }
        let total_without_checksum = SBP_USB_HEADER_SIZE + payload_len;
        let payload = slice_to_vec(slice_subrange(data, SBP_USB_HEADER_SIZE, total_without_checksum));
        let stored_checksum = u32_from_le_bytes(slice_subrange(data, total_without_checksum, total_without_checksum + 4));
        let empty: Vec<u8> = Vec::new();
        let head = slice_subrange(data, 0, total_without_checksum);
        let computed = Self::compute_checksum(head, empty.as_slice());
        assert(head@ + empty@ =~= data@.subrange(0, total_without_checksum as int));
        if computed != stored_checksum {
            return Err(VumError::ChecksumMismatch);
        }
        Ok(SbpUsbMessage {
            opcode,
            flags,
            request_id,
            timestamp_us,
            app_id,
            payload,
            checksum: stored_checksum,
        })
    }

    /// The CRC-32 of `header` followed by `payload`.
    pub fn compute_checksum(header: &[u8], payload: &[u8]) -> (c: u32)
        ensures
            c == spec_crc32(header@ + payload@),
    {
        let mut combined: Vec<u8> = Vec::new();
        append_bytes(&mut combined, header);
        append_bytes(&mut combined, payload);
        crc32fast_hash(combined.as_slice())
    }
}

} // verus!
