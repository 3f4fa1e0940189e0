use vstd::prelude::*;

verus! {

/// One bit of the reflected CRC-32 (IEEE) division: shift right, and fold in
/// the polynomial 0xEDB88320 when the bit shifted out is set.
pub open spec fn spec_crc32_bit(c: u32) -> u32 {
    if c & 1 == 1 { (c >> 1u32) ^ 0xEDB8_8320u32 } else { c >> 1u32 }
}

/// The register after one more byte: the byte is folded into its low bits,
/// then eight bits are divided out.
pub open spec fn spec_crc32_byte(c: u32, b: u8) -> u32 {
    let x = c ^ (b as u32);
    spec_crc32_bit(spec_crc32_bit(spec_crc32_bit(spec_crc32_bit(
        spec_crc32_bit(spec_crc32_bit(spec_crc32_bit(spec_crc32_bit(x))))))))
}

/// The register after all the bytes, starting from 0xFFFFFFFF.
pub open spec fn spec_crc32_register(data: Seq<u8>) -> u32
    decreases data.len(),
{
    if data.len() == 0 {
        0xFFFF_FFFFu32
    } else {
        spec_crc32_byte(spec_crc32_register(data.drop_last()), data.last())
    }
}

/// The CRC-32 (IEEE) checksum of a byte sequence: the final register,
/// inverted.
pub closed spec fn spec_crc32(data: Seq<u8>) -> u32 {
    spec_crc32_register(data) ^ 0xFFFF_FFFFu32
}

/// The checksum of no bytes is 0.
pub proof fn lemma_crc32_empty()
    ensures
        spec_crc32(Seq::<u8>::empty()) == 0,
{
    assert(0xFFFF_FFFFu32 ^ 0xFFFF_FFFFu32 == 0u32) by (bit_vector);
}

/// Calls `crc32fast::hash`, which computes the CRC-32 (IEEE) checksum of the
/// bytes handed in. Trusted: its result is `spec_crc32` of them.
#[verifier::external_body]
pub(crate) fn crc32fast_hash(data: &[u8]) -> (r: u32)
    ensures
        r == spec_crc32(data@),
{
    crc32fast::hash(data)
}

/// CRC-32 of a byte slice.
pub fn crc32(data: &[u8]) -> (r: u32)
    ensures
        r == spec_crc32(data@),
{
    crc32fast_hash(data)
}

/// CRC-32 of a run of serialized records; the same function as `crc32`.
pub fn crc32_of_records(records: &[u8]) -> (r: u32)
    ensures
        r == spec_crc32(records@),
{
    crc32(records)
}

/// Whether `expected` is the CRC-32 of `data`.
pub fn verify_checksum(data: &[u8], expected: u32) -> (r: bool)
    ensures
        r == (spec_crc32(data@) == expected),
{
    crc32(data) == expected
}

} // verus!
