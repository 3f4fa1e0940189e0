use vstd::prelude::*;
use vstd::bytes::*;
use vstd::slice::slice_subrange;

use crate::journal::checksum::{crc32fast_hash, spec_crc32};
use crate::util::digest::{sha256, spec_sha256};
use crate::util::text::push_char;

verus! {

broadcast use vstd::seq_lib::group_seq_properties;

/// Checks stored data against its checksums.
pub struct CorruptionDetector;

/// A journal file is intact when it holds at least 8 bytes and its last 4
/// bytes are the little-endian CRC-32 of everything before them.
pub open spec fn spec_journal_intact(b: Seq<u8>) -> bool {
    b.len() >= 8 && spec_crc32(b.subrange(0, b.len() - 4))
        == spec_u32_from_le_bytes(b.subrange(b.len() - 4, b.len() as int))
}

/// The lowercase hexadecimal character of a value below 16.
pub open spec fn spec_hex_digit(v: u8) -> char {
    if v == 0 { '0' } else if v == 1 { '1' } else if v == 2 { '2' } else if v == 3 { '3' }
    else if v == 4 { '4' } else if v == 5 { '5' } else if v == 6 { '6' } else if v == 7 { '7' }
    else if v == 8 { '8' } else if v == 9 { '9' } else if v == 10 { 'a' } else if v == 11 { 'b' }
    else if v == 12 { 'c' } else if v == 13 { 'd' } else if v == 14 { 'e' } else { 'f' }
}

/// Bytes in lowercase hexadecimal, two characters each, high nibble first.
pub open spec fn spec_hex_lower(b: Seq<u8>) -> Seq<char>
    decreases b.len(),
{
    if b.len() == 0 {
        Seq::empty()
    } else {
        spec_hex_lower(b.drop_last()).push(spec_hex_digit(b.last() / 16)).push(spec_hex_digit(b.last() % 16))
    }
}

fn hex_digit(v: u8) -> (c: char)
    requires
        v < 16,
    ensures
        c == spec_hex_digit(v),
{
    match v {
        0 => '0',
        1 => '1',
        2 => '2',
        3 => '3',
        4 => '4',
        5 => '5',
        6 => '6',
        7 => '7',
        8 => '8',
        9 => '9',
        10 => 'a',
        11 => 'b',
        12 => 'c',
        13 => 'd',
        14 => 'e',
        _ => 'f',
    }
}

impl CorruptionDetector {
    /// Whether the contents of a journal file are intact (see
    /// `spec_journal_intact`); an empty or short file is not.
    pub fn journal_bytes_intact(buffer: &[u8]) -> (r: bool)
        ensures
            r == spec_journal_intact(buffer@),
    {
        let len = buffer.len();
        if len < 8 {
            return false;
        }
        let stored = u32_from_le_bytes(slice_subrange(buffer, len - 4, len));
        let computed = crc32fast_hash(slice_subrange(buffer, 0, len - 4));
        computed == stored
    }

    /// Whether the CRC-32 of a file's contents is `expected_crc`.
    pub fn bytes_match_crc(buffer: &[u8], expected_crc: u32) -> (r: bool)
        ensures
            r == (spec_crc32(buffer@) == expected_crc),
    {
        crc32fast_hash(buffer) == expected_crc
    }

    /// The SHA-256 digest of the data as 64 lowercase hexadecimal characters.
    pub fn sha256_hex(data: &[u8]) -> (s: String)
        ensures
            s@ == spec_hex_lower(spec_sha256(data@)),
            s@.len() == 64,
    {
        let digest = sha256(data);
        let mut s = String::new();
        let mut i: usize = 0;
        while i < 32
            invariant
                i <= 32,
                digest@.len() == 32,
                s@ == spec_hex_lower(digest@.subrange(0, i as int)),
                s@.len() == 2 * i,
            decreases 32 - i,
        {
            let b = digest[i];
            push_char(&mut s, hex_digit(b / 16));
            push_char(&mut s, hex_digit(b % 16));
            proof {
                assert(digest@.subrange(0, i + 1).drop_last() =~= digest@.subrange(0, i as int));
            }
            i = i + 1;
        }
        assert(digest@.subrange(0, 32) =~= digest@);
        s
    }
}

} // verus!
