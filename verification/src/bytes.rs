//! Byte-level helpers: comparison of byte strings and little-endian integers.

use vstd::prelude::*;

verus! {

/// The unsigned 16-bit number that two bytes spell in little-endian order.
pub open spec fn spec_u16_le(lo: u8, hi: u8) -> int {
    lo as int + 256 * (hi as int)
}

/// The unsigned 32-bit number that four bytes spell in little-endian order.
pub open spec fn spec_u32_le(b0: u8, b1: u8, b2: u8, b3: u8) -> int {
    b0 as int + 256 * (b1 as int) + 65536 * (b2 as int) + 16777216 * (b3 as int)
}

/// The eight bytes of `x`, least significant first.
pub open spec fn spec_u64_le_bytes(x: u64) -> Seq<u8> {
    seq![
        (x % 0x100) as u8,
        (x / 0x100 % 0x100) as u8,
        (x / 0x1_0000 % 0x100) as u8,
        (x / 0x100_0000 % 0x100) as u8,
        (x / 0x1_0000_0000 % 0x100) as u8,
        (x / 0x100_0000_0000 % 0x100) as u8,
        (x / 0x1_0000_0000_0000 % 0x100) as u8,
        (x / 0x100_0000_0000_0000 % 0x100) as u8,
    ]
}

/// The two's complement image of a signed 64-bit number.
pub open spec fn spec_twos_complement(x: i64) -> u64 {
    if x >= 0 {
        x as u64
    } else {
        (x as int + 0x1_0000_0000_0000_0000) as u64
    }
}

/// The eight bytes of `x` in two's complement, least significant first.
pub open spec fn spec_i64_le_bytes(x: i64) -> Seq<u8> {
    spec_u64_le_bytes(spec_twos_complement(x))
}

/// Whether two byte strings hold the same bytes.
pub fn bytes_equal(a: &[u8], b: &[u8]) -> (same: bool)
    ensures
        same == (a@ == b@),
{
    if a.len() != b.len() {
        return false;
    }
    let mut i: usize = 0;
    while i < a.len()
        invariant
            a@.len() == b@.len(),
            i <= a@.len(),
            forall|j: int| 0 <= j < i ==> a@[j] == b@[j],
        decreases a@.len() - i,
    {
        if a[i] != b[i] {
            return false;
        }
        i += 1;
    }
    assert(a@ =~= b@);
    true
}

/// Reads a little-endian unsigned 16-bit number from two bytes.
pub fn u16_from_le(lo: u8, hi: u8) -> (value: u16)
    ensures
        value as int == spec_u16_le(lo, hi),
{
    (lo as u16) + 256 * (hi as u16)
}

/// Reads a little-endian unsigned 32-bit number from four bytes.
pub fn u32_from_le(b0: u8, b1: u8, b2: u8, b3: u8) -> (value: u32)
    ensures
        value as int == spec_u32_le(b0, b1, b2, b3),
{
    (b0 as u32) + 256 * (b1 as u32) + 65536 * (b2 as u32) + 16777216 * (b3 as u32)
}

/// The eight bytes of `x`, least significant first.
pub fn u64_to_le_bytes(x: u64) -> (bytes: [u8; 8])
    ensures
        bytes@ == spec_u64_le_bytes(x),
{
    let bytes: [u8; 8] = [
        (x % 0x100) as u8,
        (x / 0x100 % 0x100) as u8,
        (x / 0x1_0000 % 0x100) as u8,
        (x / 0x100_0000 % 0x100) as u8,
        (x / 0x1_0000_0000 % 0x100) as u8,
        (x / 0x100_0000_0000 % 0x100) as u8,
        (x / 0x1_0000_0000_0000 % 0x100) as u8,
        (x / 0x100_0000_0000_0000 % 0x100) as u8,
    ];
    assert(bytes@ =~= spec_u64_le_bytes(x));
    bytes
}

/// The two's complement image of a signed 64-bit number.
pub fn twos_complement(x: i64) -> (image: u64)
    ensures
        image == spec_twos_complement(x),
{
    if x >= 0 {
        x as u64
    } else {
        u64::MAX - ((-(x + 1)) as u64)
    }
}

/// The eight bytes of `x` in two's complement, least significant first.
pub fn i64_to_le_bytes(x: i64) -> (bytes: [u8; 8])
    ensures
        bytes@ == spec_i64_le_bytes(x),
{
    u64_to_le_bytes(twos_complement(x))
}

} // verus!
