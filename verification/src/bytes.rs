//! Fixed-width little-endian integers inside a byte sequence.

use vstd::prelude::*;

verus! {

/// `mem` with the bytes from `at` on replaced by `data`; every other byte,
/// and the length, stay as they are.
pub open spec fn overwrite(mem: Seq<u8>, at: int, data: Seq<u8>) -> Seq<u8> {
    Seq::new(mem.len(), |i: int| if at <= i < at + data.len() { data[i - at] } else { mem[i] })
}

/// The number that two bytes stand for, least significant byte first.
pub open spec fn u16_from_le(b: Seq<u8>) -> u16
    recommends
        b.len() == 2,
{
    (b[0] + b[1] * 0x100) as u16
}

/// The number that four bytes stand for, least significant byte first.
pub open spec fn u32_from_le(b: Seq<u8>) -> u32
    recommends
        b.len() == 4,
{
    (b[0] + b[1] * 0x100 + b[2] * 0x1_0000 + b[3] * 0x100_0000) as u32
}

/// The number that eight bytes stand for, least significant byte first.
pub open spec fn u64_from_le(b: Seq<u8>) -> u64
    recommends
        b.len() == 8,
{
    (b[0] + b[1] * 0x100 + b[2] * 0x1_0000 + b[3] * 0x100_0000 + b[4] * 0x1_0000_0000 + b[5]
        * 0x100_0000_0000 + b[6] * 0x1_0000_0000_0000 + b[7] * 0x100_0000_0000_0000) as u64
}

/// The two bytes of `v`, least significant first.
pub open spec fn u16_to_le(v: u16) -> Seq<u8> {
    seq![(v % 0x100) as u8, (v / 0x100) as u8]
}

/// The four bytes of `v`, least significant first.
pub open spec fn u32_to_le(v: u32) -> Seq<u8> {
    seq![
        (v % 0x100) as u8,
        (v / 0x100 % 0x100) as u8,
        (v / 0x1_0000 % 0x100) as u8,
        (v / 0x100_0000) as u8,
    ]
}

/// The eight bytes of `v`, least significant first.
pub open spec fn u64_to_le(v: u64) -> Seq<u8> {
    seq![
        (v % 0x100) as u8,
        (v / 0x100 % 0x100) as u8,
        (v / 0x1_0000 % 0x100) as u8,
        (v / 0x100_0000 % 0x100) as u8,
        (v / 0x1_0000_0000 % 0x100) as u8,
        (v / 0x100_0000_0000 % 0x100) as u8,
        (v / 0x1_0000_0000_0000 % 0x100) as u8,
        (v / 0x100_0000_0000_0000) as u8,
    ]
}

/// The two bytes written out from a number read back as that number.
pub proof fn lemma_u16_from_le_of_to_le(v: u16)
    ensures
        u16_to_le(v).len() == 2,
        u16_from_le(u16_to_le(v)) == v,
{
    assert(v % 0x100 + (v / 0x100) * 0x100 == v && v / 0x100 < 0x100) by (bit_vector);
}

/// The four bytes written out from a number read back as that number.
pub proof fn lemma_u32_from_le_of_to_le(v: u32)
    ensures
        u32_to_le(v).len() == 4,
        u32_from_le(u32_to_le(v)) == v,
{
    assert(v % 0x100 + (v / 0x100 % 0x100) * 0x100 + (v / 0x1_0000 % 0x100) * 0x1_0000 + (v
        / 0x100_0000) * 0x100_0000 == v && v / 0x100_0000 < 0x100) by (bit_vector);
}

/// The eight bytes written out from a number read back as that number.
pub proof fn lemma_u64_from_le_of_to_le(v: u64)
    ensures
        u64_to_le(v).len() == 8,
        u64_from_le(u64_to_le(v)) == v,
{
    assert(v % 0x100 + (v / 0x100 % 0x100) * 0x100 + (v / 0x1_0000 % 0x100) * 0x1_0000 + (v
        / 0x100_0000 % 0x100) * 0x100_0000 + (v / 0x1_0000_0000 % 0x100) * 0x1_0000_0000 + (v
        / 0x100_0000_0000 % 0x100) * 0x100_0000_0000 + (v / 0x1_0000_0000_0000 % 0x100)
        * 0x1_0000_0000_0000 + (v / 0x100_0000_0000_0000) * 0x100_0000_0000_0000 == v && v
        / 0x100_0000_0000_0000 < 0x100) by (bit_vector);
}

/// A number read from two bytes writes out as those bytes.
pub proof fn lemma_u16_to_le_of_from_le(b: Seq<u8>)
    requires
        b.len() == 2,
    ensures
        u16_to_le(u16_from_le(b)) == b,
{
    let (b0, b1) = (b[0], b[1]);
    let v: u16 = (b0 + b1 * 0x100) as u16;
    assert(v % 0x100 == b0 && v / 0x100 == b1) by (bit_vector)
        requires
            v == b0 + b1 * 0x100,
    ;
    assert(u16_to_le(v) =~= b);
}

/// A number read from four bytes writes out as those bytes.
pub proof fn lemma_u32_to_le_of_from_le(b: Seq<u8>)
    requires
        b.len() == 4,
    ensures
        u32_to_le(u32_from_le(b)) == b,
{
    let (b0, b1, b2, b3) = (b[0], b[1], b[2], b[3]);
    let v: u32 = (b0 + b1 * 0x100 + b2 * 0x1_0000 + b3 * 0x100_0000) as u32;
    assert(v % 0x100 == b0 && v / 0x100 % 0x100 == b1 && v / 0x1_0000 % 0x100 == b2 && v
        / 0x100_0000 == b3) by (bit_vector)
        requires
            v == b0 + b1 * 0x100 + b2 * 0x1_0000 + b3 * 0x100_0000,
    ;
    assert(u32_to_le(v) =~= b);
}

/// A number read from eight bytes writes out as those bytes.
pub proof fn lemma_u64_to_le_of_from_le(b: Seq<u8>)
    requires
        b.len() == 8,
    ensures
        u64_to_le(u64_from_le(b)) == b,
{
    let (b0, b1, b2, b3, b4, b5, b6, b7) = (b[0], b[1], b[2], b[3], b[4], b[5], b[6], b[7]);
    let v: u64 = (b0 + b1 * 0x100 + b2 * 0x1_0000 + b3 * 0x100_0000 + b4 * 0x1_0000_0000 + b5
        * 0x100_0000_0000 + b6 * 0x1_0000_0000_0000 + b7 * 0x100_0000_0000_0000) as u64;
    assert(v % 0x100 == b0 && v / 0x100 % 0x100 == b1 && v / 0x1_0000 % 0x100 == b2 && v
        / 0x100_0000 % 0x100 == b3 && v / 0x1_0000_0000 % 0x100 == b4 && v / 0x100_0000_0000
        % 0x100 == b5 && v / 0x1_0000_0000_0000 % 0x100 == b6 && v / 0x100_0000_0000_0000
        == b7) by (bit_vector)
        requires
            v == b0 + b1 * 0x100 + b2 * 0x1_0000 + b3 * 0x100_0000 + b4 * 0x1_0000_0000 + b5
                * 0x100_0000_0000 + b6 * 0x1_0000_0000_0000 + b7 * 0x100_0000_0000_0000,
    ;
    assert(u64_to_le(v) =~= b);
}

/// Reads the two bytes at `at` as a little-endian number.
pub fn load_u16(bytes: &[u8], at: usize) -> (v: u16)
    requires
        at + 2 <= bytes@.len(),
    ensures
        v == u16_from_le(bytes@.subrange(at as int, at + 2)),
{
    let b0 = bytes[at] as u16;
    let b1 = bytes[at + 1] as u16;
    b0 + b1 * 0x100
}

/// Reads the four bytes at `at` as a little-endian number.
pub fn load_u32(bytes: &[u8], at: usize) -> (v: u32)
    requires
        at + 4 <= bytes@.len(),
    ensures
        v == u32_from_le(bytes@.subrange(at as int, at + 4)),
{
    let b0 = bytes[at] as u32;
    let b1 = bytes[at + 1] as u32;
    let b2 = bytes[at + 2] as u32;
    let b3 = bytes[at + 3] as u32;
    b0 + b1 * 0x100 + b2 * 0x1_0000 + b3 * 0x100_0000
}

/// Reads the eight bytes at `at` as a little-endian number.
pub fn load_u64(bytes: &[u8], at: usize) -> (v: u64)
    requires
        at + 8 <= bytes@.len(),
    ensures
        v == u64_from_le(bytes@.subrange(at as int, at + 8)),
{
    let b0 = bytes[at] as u64;
    let b1 = bytes[at + 1] as u64;
    let b2 = bytes[at + 2] as u64;
    let b3 = bytes[at + 3] as u64;
    let b4 = bytes[at + 4] as u64;
    let b5 = bytes[at + 5] as u64;
    let b6 = bytes[at + 6] as u64;
    let b7 = bytes[at + 7] as u64;
    b0 + b1 * 0x100 + b2 * 0x1_0000 + b3 * 0x100_0000 + b4 * 0x1_0000_0000 + b5
        * 0x100_0000_0000 + b6 * 0x1_0000_0000_0000 + b7 * 0x100_0000_0000_0000
}

/// Writes `v` into the two bytes at `at`, least significant byte first.
pub fn store_u16(bytes: &mut [u8], at: usize, v: u16)
    requires
        at + 2 <= old(bytes)@.len(),
    ensures
        final(bytes)@ == overwrite(old(bytes)@, at as int, u16_to_le(v)),
{
    bytes[at] = (v % 0x100) as u8;
    bytes[at + 1] = (v / 0x100) as u8;
}

/// Writes `v` into the four bytes at `at`, least significant byte first.
pub fn store_u32(bytes: &mut [u8], at: usize, v: u32)
    requires
        at + 4 <= old(bytes)@.len(),
    ensures
        final(bytes)@ == overwrite(old(bytes)@, at as int, u32_to_le(v)),
{
    bytes[at] = (v % 0x100) as u8;
    bytes[at + 1] = (v / 0x100 % 0x100) as u8;
    bytes[at + 2] = (v / 0x1_0000 % 0x100) as u8;
    bytes[at + 3] = (v / 0x100_0000) as u8;
}

/// Writes `v` into the eight bytes at `at`, least significant byte first.
pub fn store_u64(bytes: &mut [u8], at: usize, v: u64)
    requires
        at + 8 <= old(bytes)@.len(),
    ensures
        final(bytes)@ == overwrite(old(bytes)@, at as int, u64_to_le(v)),
{
    bytes[at] = (v % 0x100) as u8;
    bytes[at + 1] = (v / 0x100 % 0x100) as u8;
    bytes[at + 2] = (v / 0x1_0000 % 0x100) as u8;
    bytes[at + 3] = (v / 0x100_0000 % 0x100) as u8;
    bytes[at + 4] = (v / 0x1_0000_0000 % 0x100) as u8;
    bytes[at + 5] = (v / 0x100_0000_0000 % 0x100) as u8;
    bytes[at + 6] = (v / 0x1_0000_0000_0000 % 0x100) as u8;
    bytes[at + 7] = (v / 0x100_0000_0000_0000) as u8;
}

} // verus!
