//! WEBP: a RIFF container whose form type is `"WEBP"`. The FourCC of the
//! first chunk, at offset 12, selects one of three layouts.

use crate::outcome::Malformation;
use crate::reader::{read_u16_le, read_u32_le, spec_read_u16_le, spec_read_u32_le};
use crate::signature::{equal_at, match_signature};
use vstd::prelude::*;
use vstd::slice::slice_subrange;

verus! {

/// `"RIFF"`, at offset 0.
pub const RIFF: [u8; 4] = [0x52, 0x49, 0x46, 0x46];

/// `"WEBP"`, at offset 8.
pub const WEBP: [u8; 4] = [0x57, 0x45, 0x42, 0x50];

/// FourCC of the extended layout.
pub const VP8X: [u8; 4] = [0x56, 0x50, 0x38, 0x58];

/// FourCC of the lossless layout.
pub const VP8L: [u8; 4] = [0x56, 0x50, 0x38, 0x4C];

/// `"RIFF"` at offset 0 and `"WEBP"` at offset 8.
pub open spec fn spec_webp_check(s: Seq<u8>) -> bool {
    s.len() >= 12 && s.subrange(0, 4) == RIFF@ && s.subrange(8, 12) == WEBP@
}

/// Width of the lossless layout: the low fourteen bits of the packed value
/// hold the width less one.
pub open spec fn packed_width(value: u32) -> u32 {
    ((value & 0x3FFF) + 1) as u32
}

/// Height of the lossless layout: bits 14 to 27 of the packed value hold the
/// height less one.
pub open spec fn packed_height(value: u32) -> u32 {
    (((value >> 14) & 0x3FFF) + 1) as u32
}

/// Where the last field ends that the layout of `s` keeps its dimensions in.
pub open spec fn spec_fields_end(s: Seq<u8>) -> int {
    if s.subrange(12, 16) == VP8X@ {
        0x1D
    } else if s.subrange(12, 16) == VP8L@ {
        0x19
    } else {
        0x1E
    }
}

/// The dimensions by layout:
/// - `"VP8X"`: the little-endian `u16` at `0x18` plus one, and the one at
///   `0x1B` plus one;
/// - `"VP8L"`: the two fourteen-bit fields of the little-endian `u32` at
///   `0x15`, each plus one;
/// - anything else: the little-endian `u16` at `0x1A` and the one at `0x1C`,
///   as they stand, scale bits included.
pub open spec fn spec_webp_size(s: Seq<u8>) -> Result<(u32, u32), Malformation> {
    if s.len() < 16 {
        Err(Malformation::Truncated)
    } else if s.subrange(12, 16) == VP8X@ {
        match (spec_read_u16_le(s, 0x18), spec_read_u16_le(s, 0x1B)) {
            (Some(w), Some(h)) => Ok(((w + 1) as u32, (h + 1) as u32)),
            _ => Err(Malformation::Truncated),
        }
    } else if s.subrange(12, 16) == VP8L@ {
        match spec_read_u32_le(s, 0x15) {
            Some(value) => Ok((packed_width(value), packed_height(value))),
            None => Err(Malformation::Truncated),
        }
    } else {
        match (spec_read_u16_le(s, 0x1A), spec_read_u16_le(s, 0x1C)) {
            (Some(w), Some(h)) => Ok((w as u32, h as u32)),
            _ => Err(Malformation::Truncated),
        }
    }
}

/// In terms of arithmetic, the fourteen-bit fields are remainders: the width
/// is `value mod 2^14 + 1`, the height `(value div 2^14) mod 2^14 + 1`, and
/// both lie between 1 and 16384.
pub proof fn lemma_packed_size(value: u32)
    ensures
        packed_width(value) == value % 0x4000 + 1,
        packed_height(value) == (value / 0x4000) % 0x4000 + 1,
        1 <= packed_width(value) <= 0x4000,
        1 <= packed_height(value) <= 0x4000,
{
    assert(value & 0x3FFF == value % 0x4000) by (bit_vector);
    assert((value >> 14) & 0x3FFF == (value / 0x4000) % 0x4000) by (bit_vector);
}

/// Is the buffer a RIFF container of form type `"WEBP"`?
pub fn webp_check(bytes: &[u8]) -> (b: bool)
    ensures
        b == spec_webp_check(bytes@),
{
    if bytes.len() < 12 {
        return false;
    }
    let head = slice_subrange(bytes, 0, 12);
    assert(head@.subrange(0, 4) =~= bytes@.subrange(0, 4));
    assert(head@.subrange(8, 12) =~= bytes@.subrange(8, 12));
    match_signature(head, &RIFF, Some(&WEBP))
}

/// Width and height by the layout that the FourCC at offset 12 names;
/// `Truncated` where the buffer ends before the FourCC or before the end of
/// a field of that layout.
pub fn webp_size(bytes: &[u8]) -> (r: Result<(u32, u32), Malformation>)
    ensures
        r == spec_webp_size(bytes@),
        r is Ok <==> bytes@.len() >= 16 && bytes@.len() >= spec_fields_end(bytes@),
        r is Err ==> r == Err::<(u32, u32), Malformation>(Malformation::Truncated),
{
    if bytes.len() < 16 {
        return Err(Malformation::Truncated);
    }
    if equal_at(bytes, 12, &VP8X) {
        return match (read_u16_le(bytes, 0x18), read_u16_le(bytes, 0x1B)) {
            (Some(w), Some(h)) => Ok((w as u32 + 1, h as u32 + 1)),
            _ => Err(Malformation::Truncated),
        };
    }
    if equal_at(bytes, 12, &VP8L) {
        return match read_u32_le(bytes, 0x15) {
            Some(value) => {
                assert(value & 0x3FFF < 0x4000 && (value >> 14) & 0x3FFF < 0x4000) by (bit_vector);
                Ok(((value & 0x3FFF) + 1, ((value >> 14) & 0x3FFF) + 1))
            },
            None => Err(Malformation::Truncated),
        };
    }
    match (read_u16_le(bytes, 0x1A), read_u16_le(bytes, 0x1C)) {
        (Some(w), Some(h)) => Ok((w as u32, h as u32)),
        _ => Err(Malformation::Truncated),
    }
}

} // verus!
