use vstd::prelude::*;
use vstd::bytes::*;
use vstd::slice::{slice_subrange, slice_to_vec};
use vstd::utf8::*;

use crate::common::error::VumError;
use crate::common::result::VumResult;
use crate::journal::checksum::{crc32fast_hash, spec_crc32};
use crate::journal::record_type::{RecordType, spec_record_type_byte, spec_record_type_from_byte, lemma_record_type_byte_roundtrip};
use crate::util::bytes::{append_bytes, le32_at, le64_at, lemma_le_bytes};
use crate::util::clock::now_micros;
use crate::util::digest::{sha256, spec_sha256};
use crate::util::number::{decimal_string, hex_string, spec_decimal, spec_hex};
use crate::util::text::{concat_str, string_bytes, string_from_utf8, str_to_string};

verus! {

broadcast use vstd::seq_lib::group_seq_properties;

/// Magic number that opens every journal record ("JRNL").
pub const RECORD_MAGIC: u32 = 0x4A524E4C;

/// The fewest bytes a serialized record can take: the fixed header, the two
/// length fields, the data hash and the checksum.
pub const RECORD_MIN_SIZE: usize = 66;

/// One entry of the write-ahead journal.
#[derive(Debug, Clone)]
pub struct JournalRecord {
    pub magic: u32,
    pub version: u8,
    pub record_type: RecordType,
    pub record_id: u64,
    pub timestamp_us: u64,
    pub path: String,
    pub data: Vec<u8>,
    pub data_hash: [u8; 32],
    pub checksum: u32,
}

/// The mathematical content of a journal record.
pub struct RecordView {
    pub magic: u32,
    pub version: u8,
    pub record_type: RecordType,
    pub record_id: u64,
    pub timestamp_us: u64,
    pub path: Seq<char>,
    pub data: Seq<u8>,
    pub data_hash: Seq<u8>,
    pub checksum: u32,
}

impl View for JournalRecord {
    type V = RecordView;

    open spec fn view(&self) -> RecordView {
        RecordView {
            magic: self.magic,
            version: self.version,
            record_type: self.record_type,
            record_id: self.record_id,
            timestamp_us: self.timestamp_us,
            path: self.path@,
            data: self.data@,
            data_hash: self.data_hash@,
            checksum: self.checksum,
        }
    }
}

/// Everything a record serializes to before its checksum: the header, the
/// length-prefixed path (UTF-8) and data, and the data hash. Lengths are
/// written as little-endian `u32`, truncated as the `as u32` cast does.
pub open spec fn spec_record_body(r: RecordView) -> Seq<u8> {
    let pb = encode_utf8(r.path);
    spec_u32_to_le_bytes(r.magic) + seq![r.version] + seq![spec_record_type_byte(r.record_type)]
        + spec_u64_to_le_bytes(r.record_id) + spec_u64_to_le_bytes(r.timestamp_us)
        + spec_u32_to_le_bytes(pb.len() as u32) + pb + spec_u32_to_le_bytes(r.data.len() as u32)
        + r.data + r.data_hash
}

/// The full serialized form: the body followed by the stored checksum.
pub open spec fn spec_record_bytes(r: RecordView) -> Seq<u8> {
    spec_record_body(r) + spec_u32_to_le_bytes(r.checksum)
}

/// The serialized size of a record.
pub open spec fn spec_record_size(r: RecordView) -> int {
    (4 + 1 + 1 + 8 + 8 + 4 + encode_utf8(r.path).len() + 4 + r.data.len() + 32 + 4) as int
}

/// The checksum a record should carry: the CRC-32 of its body.
pub open spec fn spec_record_checksum(r: RecordView) -> u32 {
    spec_crc32(spec_record_body(r))
}

/// Why bytes are not a journal record.
pub enum RecordParseError {
    TooShort,
    BadMagic,
    BadType,
    PathOverflow,
    BadUtf8,
    MissingDataLen,
    DataOverflow,
    ChecksumFailed,
}

/// Reading a record from the front of `d` (what follows it is ignored).
pub open spec fn spec_parse_record(d: Seq<u8>) -> Result<RecordView, RecordParseError> {
    if d.len() < 66 {
        Err(RecordParseError::TooShort)
    } else if le32_at(d, 0) != RECORD_MAGIC {
        Err(RecordParseError::BadMagic)
    } else if spec_record_type_from_byte(d[5]) is None {
        Err(RecordParseError::BadType)
    } else {
        let plen = le32_at(d, 22) as int;
        if 26 + plen > d.len() {
            Err(RecordParseError::PathOverflow)
        } else if !valid_utf8(d.subrange(26, 26 + plen)) {
            Err(RecordParseError::BadUtf8)
        } else if 26 + plen + 4 > d.len() {
            Err(RecordParseError::MissingDataLen)
        } else {
            let dlen = le32_at(d, 26 + plen) as int;
            let off = 30 + plen;
            if off + dlen + 36 > d.len() {
                Err(RecordParseError::DataOverflow)
            } else {
                let rec = RecordView {
                    magic: le32_at(d, 0),
                    version: d[4],
                    record_type: spec_record_type_from_byte(d[5])->Some_0,
                    record_id: le64_at(d, 6),
                    timestamp_us: le64_at(d, 14),
                    path: decode_utf8(d.subrange(26, 26 + plen)),
                    data: d.subrange(off, off + dlen),
                    data_hash: d.subrange(off + dlen, off + dlen + 32),
                    checksum: le32_at(d, off + dlen + 32),
                };
                if rec.checksum != spec_record_checksum(rec) {
                    Err(RecordParseError::ChecksumFailed)
                } else {
                    Ok(rec)
                }
            }
        }
    }
}

/// The text of a `JournalCorrupt` error for a parse failure of `d`.
pub open spec fn spec_record_error_text(d: Seq<u8>, e: RecordParseError) -> Seq<char> {
    match e {
        RecordParseError::TooShort => "Record too short for header"@,
        RecordParseError::BadMagic => "Invalid magic: expected 0x4A524E4C, got 0x"@ + spec_hex(le32_at(d, 0) as nat),
        RecordParseError::BadType => "Invalid record type byte: "@ + spec_decimal(d[5] as nat),
        RecordParseError::PathOverflow => "Path length exceeds buffer"@,
        RecordParseError::BadUtf8 => "Invalid UTF-8 in path"@,
        RecordParseError::MissingDataLen => "Missing data length field"@,
        RecordParseError::DataOverflow => "Data length exceeds buffer"@,
        RecordParseError::ChecksumFailed => Seq::empty(),
    }
}

/// The error `from_bytes` reports when reading `d` fails with `e`: a
/// checksum that does not match is `JournalChecksumFailed`, any other
/// failure `JournalCorrupt` with the text of `spec_record_error_text`.
pub open spec fn spec_record_error(d: Seq<u8>, e: RecordParseError, err: VumError) -> bool {
    match e {
        RecordParseError::ChecksumFailed => err is JournalChecksumFailed,
        _ => err matches VumError::JournalCorrupt(m) && m@ == spec_record_error_text(d, e),
    }
}

/// A record whose serialization reads back as itself: its magic is right,
/// its path and data lengths fit the `u32` length fields, and its checksum
/// matches its content.
pub open spec fn spec_record_well_formed(r: RecordView) -> bool {
    &&& r.magic == RECORD_MAGIC
    &&& encode_utf8(r.path).len() <= u32::MAX
    &&& r.data.len() <= u32::MAX
    &&& r.data_hash.len() == 32
    &&& r.checksum == spec_record_checksum(r)
}

/// Writing a well-formed record and reading it back, with any bytes after
/// it, gives the record again; the serialization is `size` bytes long.
pub proof fn lemma_record_roundtrip(r: RecordView, rest: Seq<u8>)
    requires
        spec_record_well_formed(r),
    ensures
        spec_parse_record(spec_record_bytes(r) + rest) == Ok::<RecordView, RecordParseError>(r),
        spec_record_bytes(r).len() == spec_record_size(r),
{
    lemma_le_bytes();
    encode_utf8_valid_utf8(r.path);
    encode_utf8_decode_utf8(r.path);
    lemma_record_type_byte_roundtrip(r.record_type);
    let pb = encode_utf8(r.path);
    let d = spec_record_bytes(r) + rest;
    let plen = pb.len() as int;
    assert((pb.len() as u32) as int == plen);
    assert((r.data.len() as u32) as int == r.data.len());
    let dlen = r.data.len() as int;
    let off = 30 + plen;
    assert(d.subrange(0, 4) =~= spec_u32_to_le_bytes(r.magic));
    assert(d[4] == r.version);
    assert(d[5] == spec_record_type_byte(r.record_type));
    assert(d.subrange(6, 14) =~= spec_u64_to_le_bytes(r.record_id));
    assert(d.subrange(14, 22) =~= spec_u64_to_le_bytes(r.timestamp_us));
    assert(d.subrange(22, 26) =~= spec_u32_to_le_bytes(pb.len() as u32));
    assert(d.subrange(26, 26 + plen) =~= pb);
    assert(d.subrange(26 + plen, 30 + plen) =~= spec_u32_to_le_bytes(r.data.len() as u32));
    assert(d.subrange(off, off + dlen) =~= r.data);
    assert(d.subrange(off + dlen, off + dlen + 32) =~= r.data_hash);
    assert(d.subrange(off + dlen + 32, off + dlen + 36) =~= spec_u32_to_le_bytes(r.checksum));
    let rec = spec_parse_record(d)->Ok_0;
    assert(spec_parse_record(d) is Ok);
    assert(rec.path == r.path);
    assert(rec.data =~= r.data);
    assert(rec.data_hash =~= r.data_hash);
    assert(rec == r);
}

impl JournalRecord {
    /// A new record of the given kind: the data's SHA-256 is stored beside
    /// it, the timestamp is the current time and the checksum is computed.
    pub fn new(record_type: RecordType, record_id: u64, path: &str, data: Vec<u8>) -> (r: Self)
        ensures
            r.magic == RECORD_MAGIC,
            r.version == 1,
            r.record_type == record_type,
            r.record_id == record_id,
            r.path@ == path@,
            r.data@ == data@,
            r.data_hash@ == spec_sha256(data@),
            r.checksum == spec_record_checksum(r@),
    {
        let data_hash = sha256(data.as_slice());
        let mut record = JournalRecord {
            magic: RECORD_MAGIC,
            version: 1,
            record_type,
            record_id,
            timestamp_us: now_micros(),
            path: str_to_string(path),
            data,
            data_hash,
            checksum: 0,
        };
        record.checksum = record.compute_checksum();
        record
    }

    /// The bytes of the record before its checksum.
    fn body_bytes(&self) -> (buf: Vec<u8>)
        ensures
            buf@ == spec_record_body(self@),
    {
        let path_bytes = string_bytes(&self.path);
        let mut buf: Vec<u8> = Vec::new();
        append_bytes(&mut buf, u32_to_le_bytes(self.magic).as_slice());
        buf.push(self.version);
        buf.push(self.record_type.to_byte());
        append_bytes(&mut buf, u64_to_le_bytes(self.record_id).as_slice());
        append_bytes(&mut buf, u64_to_le_bytes(self.timestamp_us).as_slice());
        append_bytes(&mut buf, u32_to_le_bytes(path_bytes.len() as u32).as_slice());
        append_bytes(&mut buf, path_bytes);
        append_bytes(&mut buf, u32_to_le_bytes(self.data.len() as u32).as_slice());
        append_bytes(&mut buf, self.data.as_slice());
        append_bytes(&mut buf, self.data_hash.as_slice());
        assert(buf@ =~= spec_record_body(self@));
        buf
    }

    /// Serializes the record: header, path, data, hash and stored checksum.
    pub fn to_bytes(&self) -> (buf: Vec<u8>)
        ensures
            buf@ == spec_record_bytes(self@),
    {
        let mut buf = self.body_bytes();
        append_bytes(&mut buf, u32_to_le_bytes(self.checksum).as_slice());
        buf
    }

    /// Reads a record from the front of `data`; bytes after it are ignored.
    /// A record whose stored checksum does not match its content gives
    /// `JournalChecksumFailed`; any other malformation gives `JournalCorrupt`.
    pub fn from_bytes(data: &[u8]) -> (r: VumResult<Self>)
        ensures
            r is Ok <==> spec_parse_record(data@) is Ok,
            r matches Ok(rec) ==> spec_parse_record(data@) == Ok::<RecordView, RecordParseError>(rec@),
            r matches Err(e) ==> spec_record_error(data@, spec_parse_record(data@)->Err_0, e),
    {
        proof { lemma_le_bytes(); }
        let len = data.len();
        if len < RECORD_MIN_SIZE {
            return Err(VumError::JournalCorrupt(str_to_string("Record too short for header")));
        }
        let magic = u32_from_le_bytes(slice_subrange(data, 0, 4));
        if magic != RECORD_MAGIC {
            let hex = hex_string(magic as u64);
            return Err(VumError::JournalCorrupt(concat_str("Invalid magic: expected 0x4A524E4C, got 0x", hex.as_str())));
        }
        let version = data[4];
        let record_type = match RecordType::from_byte(data[5]) {
            Some(t) => t,
            None => {
                let b = decimal_string(data[5] as u64);
                return Err(VumError::JournalCorrupt(concat_str("Invalid record type byte: ", b.as_str())));
            },
        };
        let record_id = u64_from_le_bytes(slice_subrange(data, 6, 14));
        let timestamp_us = u64_from_le_bytes(slice_subrange(data, 14, 22));
        let path_len = u32_from_le_bytes(slice_subrange(data, 22, 26)) as usize;
        if path_len > len - 26 {
            return Err(VumError::JournalCorrupt(str_to_string("Path length exceeds buffer")));
        }
        let path_end = 26 + path_len;
        let path_vec = slice_to_vec(slice_subrange(data, 26, path_end));
        let path = match string_from_utf8(path_vec) {
            Some(p) => p,
            None => {
                return Err(VumError::JournalCorrupt(str_to_string("Invalid UTF-8 in path")));
            },
        };
        if len - path_end < 4 {
            return Err(VumError::JournalCorrupt(str_to_string("Missing data length field")));
        }
        let data_len = u32_from_le_bytes(slice_subrange(data, path_end, path_end + 4)) as usize;
        let off = path_end + 4;
        if data_len > len - off || len - off - data_len < 36 {
            return Err(VumError::JournalCorrupt(str_to_string("Data length exceeds buffer")));
        }
        let record_data = slice_to_vec(slice_subrange(data, off, off + data_len));
        let hash_start = off + data_len;
        let mut data_hash = [0u8; 32];
        let mut i: usize = 0;
        while i < 32
            invariant
                i <= 32,
                hash_start + 36 <= data.len(),
                forall|j: int| 0 <= j < i ==> data_hash@[j] == data@[hash_start + j],
            decreases 32 - i,
        {
            data_hash[i] = data[hash_start + i];
            i = i + 1;
        }
        let stored_cs = u32_from_le_bytes(slice_subrange(data, hash_start + 32, hash_start + 36));
        let record = JournalRecord {
            magic,
            version,
            record_type,
            record_id,
            timestamp_us,
            path,
            data: record_data,
            data_hash,
            checksum: stored_cs,
        };
        assert(data_hash@ =~= data@.subrange(hash_start as int, hash_start + 32));
        assert(record@ == spec_parse_record(data@)->Ok_0 || !record.spec_verify());
        if !record.verify_checksum() {
            return Err(VumError::JournalChecksumFailed);
        }
        Ok(record)
    }

    pub open spec fn spec_verify(&self) -> bool {
        self.checksum == spec_record_checksum(self@)
    }

    /// The CRC-32 of the record's body (everything but the checksum field).
    pub fn compute_checksum(&self) -> (r: u32)
        ensures
            r == spec_record_checksum(self@),
    {
        let body = self.body_bytes();
        crc32fast_hash(body.as_slice())
    }

    /// Whether the stored checksum matches the record's content.
    pub fn verify_checksum(&self) -> (r: bool)
        ensures
            r == self.spec_verify(),
    {
        self.checksum == self.compute_checksum()
    }

    /// The number of bytes `to_bytes` produces.
    pub fn size(&self) -> (n: usize)
        requires
            spec_record_size(self@) <= usize::MAX,
        ensures
            n == spec_record_size(self@),
    {
        let path_len = string_bytes(&self.path).len();
        4 + 1 + 1 + 8 + 8 + 4 + path_len + 4 + self.data.len() + 32 + 4
    }
}

} // verus!
