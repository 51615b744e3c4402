//! Fixed-width unsigned integers at a byte offset, big- or little-endian.
//!
//! Every reader checks `offset + width <= length` itself and answers `None`
//! when the field does not lie inside the buffer.

use vstd::prelude::*;

verus! {

/// The `width` bytes starting at offset `i` all lie inside `s`.
pub open spec fn in_bounds(s: Seq<u8>, i: int, width: int) -> bool {
    0 <= i && i + width <= s.len()
}

/// Value of the two bytes at `i`, most significant byte first.
pub open spec fn be16(s: Seq<u8>, i: int) -> int {
    s[i] as int * 0x100 + s[i + 1] as int
}

/// Value of the two bytes at `i`, least significant byte first.
pub open spec fn le16(s: Seq<u8>, i: int) -> int {
    s[i] as int + s[i + 1] as int * 0x100
}

/// Value of the four bytes at `i`, most significant byte first.
pub open spec fn be32(s: Seq<u8>, i: int) -> int {
    s[i] as int * 0x100_0000 + s[i + 1] as int * 0x1_0000 + s[i + 2] as int * 0x100 + s[i
        + 3] as int
}

/// Value of the four bytes at `i`, least significant byte first.
pub open spec fn le32(s: Seq<u8>, i: int) -> int {
    s[i] as int + s[i + 1] as int * 0x100 + s[i + 2] as int * 0x1_0000 + s[i + 3] as int
        * 0x100_0000
}

/// The byte at `i`, where there is one.
pub open spec fn spec_read_u8_be(s: Seq<u8>, i: int) -> Option<u8> {
    if in_bounds(s, i, 1) {
        Some(s[i])
    } else {
        None
    }
}

/// The big-endian `u16` at `i`, where its two bytes lie inside `s`.
pub open spec fn spec_read_u16_be(s: Seq<u8>, i: int) -> Option<u16> {
    if in_bounds(s, i, 2) {
        Some(be16(s, i) as u16)
    } else {
        None
    }
}

/// The little-endian `u16` at `i`, where its two bytes lie inside `s`.
pub open spec fn spec_read_u16_le(s: Seq<u8>, i: int) -> Option<u16> {
    if in_bounds(s, i, 2) {
        Some(le16(s, i) as u16)
    } else {
        None
    }
}

/// The big-endian `u32` at `i`, where its four bytes lie inside `s`.
pub open spec fn spec_read_u32_be(s: Seq<u8>, i: int) -> Option<u32> {
    if in_bounds(s, i, 4) {
        Some(be32(s, i) as u32)
    } else {
        None
    }
}

/// The little-endian `u32` at `i`, where its four bytes lie inside `s`.
pub open spec fn spec_read_u32_le(s: Seq<u8>, i: int) -> Option<u32> {
    if in_bounds(s, i, 4) {
        Some(le32(s, i) as u32)
    } else {
        None
    }
}

/// Does the field of `width` bytes at `i` lie inside a buffer of `len` bytes?
/// Written so that no sum can overflow.
fn fits(len: usize, i: usize, width: usize) -> (b: bool)
    ensures
        b == (i + width <= len),
{
    i <= len && len - i >= width
}

/// The byte at offset `i`, or `None` when `i` is past the end.
pub fn read_u8_be(bytes: &[u8], i: usize) -> (r: Option<u8>)
    ensures
        r == spec_read_u8_be(bytes@, i as int),
        r is Some <==> i < bytes@.len(),
        r matches Some(v) ==> v == bytes@[i as int],
{
    if !fits(bytes.len(), i, 1) {
        return None;
    }
    Some(bytes[i])
}

/// The big-endian `u16` at offset `i`, or `None` when it does not fit.
pub fn read_u16_be(bytes: &[u8], i: usize) -> (r: Option<u16>)
    ensures
        r == spec_read_u16_be(bytes@, i as int),
        r is Some <==> i + 2 <= bytes@.len(),
        r matches Some(v) ==> v == be16(bytes@, i as int),
{
    if !fits(bytes.len(), i, 2) {
        return None;
    }
    Some(bytes[i] as u16 * 0x100 + bytes[i + 1] as u16)
}

/// The little-endian `u16` at offset `i`, or `None` when it does not fit.
pub fn read_u16_le(bytes: &[u8], i: usize) -> (r: Option<u16>)
    ensures
        r == spec_read_u16_le(bytes@, i as int),
        r is Some <==> i + 2 <= bytes@.len(),
        r matches Some(v) ==> v == le16(bytes@, i as int),
{
    if !fits(bytes.len(), i, 2) {
        return None;
    }
    Some(bytes[i] as u16 + bytes[i + 1] as u16 * 0x100)
}

/// The big-endian `u32` at offset `i`, or `None` when it does not fit.
pub fn read_u32_be(bytes: &[u8], i: usize) -> (r: Option<u32>)
    ensures
        r == spec_read_u32_be(bytes@, i as int),
        r is Some <==> i + 4 <= bytes@.len(),
        r matches Some(v) ==> v == be32(bytes@, i as int),
{
    if !fits(bytes.len(), i, 4) {
        return None;
    }
    Some(
        bytes[i] as u32 * 0x100_0000 + bytes[i + 1] as u32 * 0x1_0000 + bytes[i + 2] as u32 * 0x100
            + bytes[i + 3] as u32,
    )
}

/// The little-endian `u32` at offset `i`, or `None` when it does not fit.
pub fn read_u32_le(bytes: &[u8], i: usize) -> (r: Option<u32>)
    ensures
        r == spec_read_u32_le(bytes@, i as int),
        r is Some <==> i + 4 <= bytes@.len(),
        r matches Some(v) ==> v == le32(bytes@, i as int),
{
    if !fits(bytes.len(), i, 4) {
        return None;
    }
    Some(
        bytes[i] as u32 + bytes[i + 1] as u32 * 0x100 + bytes[i + 2] as u32 * 0x1_0000 + bytes[i
            + 3] as u32 * 0x100_0000,
    )
}

} // verus!
