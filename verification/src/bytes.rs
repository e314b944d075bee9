//! Fixed-width integers read from byte sequences in either byte order.

use vstd::prelude::*;

verus! {

/// The big-endian value of `d[i..i + 2]`.
pub open spec fn be_u16(d: Seq<u8>, i: int) -> int {
    d[i] * 256 + d[i + 1]
}

/// The big-endian value of `d[i..i + 4]`.
pub open spec fn be_u32(d: Seq<u8>, i: int) -> int {
    be_u16(d, i) * 65536 + be_u16(d, i + 2)
}

/// The big-endian value of `d[i..i + 8]`.
pub open spec fn be_u64(d: Seq<u8>, i: int) -> int {
    be_u32(d, i) * 0x1_0000_0000 + be_u32(d, i + 4)
}

/// The little-endian value of `d[i..i + 2]`.
pub open spec fn le_u16(d: Seq<u8>, i: int) -> int {
    d[i + 1] * 256 + d[i]
}

/// The little-endian value of `d[i..i + 4]`.
pub open spec fn le_u32(d: Seq<u8>, i: int) -> int {
    le_u16(d, i + 2) * 65536 + le_u16(d, i)
}

/// The little-endian value of `d[i..i + 8]`.
pub open spec fn le_u64(d: Seq<u8>, i: int) -> int {
    le_u32(d, i + 4) * 0x1_0000_0000 + le_u32(d, i)
}

/// The value of a 2-byte unsigned integer at `i` in the given byte order.
pub open spec fn spec_u16(d: Seq<u8>, i: int, big_endian: bool) -> int {
    if big_endian { be_u16(d, i) } else { le_u16(d, i) }
}

/// The value of a 4-byte unsigned integer at `i` in the given byte order.
pub open spec fn spec_u32(d: Seq<u8>, i: int, big_endian: bool) -> int {
    if big_endian { be_u32(d, i) } else { le_u32(d, i) }
}

/// The value of an 8-byte unsigned integer at `i` in the given byte order.
pub open spec fn spec_u64(d: Seq<u8>, i: int, big_endian: bool) -> int {
    if big_endian { be_u64(d, i) } else { le_u64(d, i) }
}

/// The two's complement reading of a 32-bit pattern.
pub open spec fn signed32(u: int) -> int {
    if u < 0x8000_0000 { u } else { u - 0x1_0000_0000 }
}

/// The two's complement reading of a 64-bit pattern.
pub open spec fn signed64(u: int) -> int {
    if u < 0x8000_0000_0000_0000 { u } else { u - 0x1_0000_0000_0000_0000 }
}

/// Reads a 2-byte unsigned integer at `i`.
pub fn u16_at(d: &[u8], i: usize, big_endian: bool) -> (v: u16)
    requires
        i + 2 <= d@.len(),
    ensures
        v == spec_u16(d@, i as int, big_endian),
{
    let _n = d.len();
    let (hi, lo) = if big_endian { (d[i], d[i + 1]) } else { (d[i + 1], d[i]) };
    hi as u16 * 256 + lo as u16
}

/// Reads a 4-byte unsigned integer at `i`.
pub fn u32_at(d: &[u8], i: usize, big_endian: bool) -> (v: u32)
    requires
        i + 4 <= d@.len(),
    ensures
        v == spec_u32(d@, i as int, big_endian),
{
    let _n = d.len();
    let (hi, lo) = if big_endian {
        (u16_at(d, i, true), u16_at(d, i + 2, true))
    } else {
        (u16_at(d, i + 2, false), u16_at(d, i, false))
    };
    hi as u32 * 65536 + lo as u32
}

/// Reads an 8-byte unsigned integer at `i`.
pub fn u64_at(d: &[u8], i: usize, big_endian: bool) -> (v: u64)
    requires
        i + 8 <= d@.len(),
    ensures
        v == spec_u64(d@, i as int, big_endian),
{
    let _n = d.len();
    let (hi, lo) = if big_endian {
        (u32_at(d, i, true), u32_at(d, i + 4, true))
    } else {
        (u32_at(d, i + 4, false), u32_at(d, i, false))
    };
    hi as u64 * 0x1_0000_0000 + lo as u64
}

/// Reinterprets a 32-bit pattern as a two's complement integer.
pub fn to_i32(u: u32) -> (v: i32)
    ensures
        v == signed32(u as int),
{
    if u < 0x8000_0000 {
        u as i32
    } else {
        ((u - 0x8000_0000) as i32) + i32::MIN
    }
}

/// Reinterprets a 64-bit pattern as a two's complement integer.
pub fn to_i64(u: u64) -> (v: i64)
    ensures
        v == signed64(u as int),
{
    if u < 0x8000_0000_0000_0000 {
        u as i64
    } else {
        ((u - 0x8000_0000_0000_0000) as i64) + i64::MIN
    }
}

/// Whether `d` begins with `prefix`.
pub open spec fn starts_with(d: Seq<u8>, prefix: Seq<u8>) -> bool {
    prefix.len() <= d.len() && d.take(prefix.len() as int) == prefix
}

/// Whether `d` begins with `prefix`.
pub fn slice_starts_with(d: &[u8], prefix: &[u8]) -> (r: bool)
    ensures
        r == starts_with(d@, prefix@),
{
    if prefix.len() > d.len() {
        return false;
    }
    let mut i: usize = 0;
    while i < prefix.len()
        invariant
            i <= prefix@.len() <= d@.len(),
            d@.take(i as int) == prefix@.take(i as int),
        decreases prefix.len() - i,
    {
        if d[i] != prefix[i] {
            assert(d@.take(prefix@.len() as int)[i as int] != prefix@[i as int]);
            return false;
        }
        assert(d@.take(i + 1) =~= d@.take(i as int).push(d@[i as int]));
        assert(prefix@.take(i + 1) =~= prefix@.take(i as int).push(prefix@[i as int]));
        i += 1;
    }
    assert(prefix@.take(prefix@.len() as int) =~= prefix@);
    true
}

} // verus!
