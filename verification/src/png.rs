//! PNG: an eight-byte signature in front, the IEND chunk's last eight bytes
//! at the end, and width and height as big-endian `u32` in the IHDR chunk.

use crate::outcome::Malformation;
use crate::reader::{read_u32_be, spec_read_u32_be};
use crate::signature::{match_signature, spec_match_signature};
use vstd::prelude::*;

verus! {

/// The eight bytes every PNG file starts with.
pub const PNG_PREFIX: [u8; 8] = [0x89, 0x50, 0x4E, 0x47, 0x0D, 0x0A, 0x1A, 0x0A];

/// `"IEND"` and its checksum, the eight bytes every PNG file ends with.
pub const PNG_SUFFIX: [u8; 8] = [0x49, 0x45, 0x4E, 0x44, 0xAE, 0x42, 0x60, 0x82];

/// `s` starts with [`PNG_PREFIX`] and ends with [`PNG_SUFFIX`], the two not
/// overlapping.
pub open spec fn spec_png_check(s: Seq<u8>) -> bool {
    spec_match_signature(s, PNG_PREFIX@, Some(PNG_SUFFIX@))
}

/// Width at offset `0x10`, height at offset `0x14`.
pub open spec fn spec_png_size(s: Seq<u8>) -> Result<(u32, u32), Malformation> {
    match (spec_read_u32_be(s, 0x10), spec_read_u32_be(s, 0x14)) {
        (Some(w), Some(h)) => Ok((w, h)),
        _ => Err(Malformation::Truncated),
    }
}

/// Does the buffer start and end as a PNG file does?
pub fn png_check(bytes: &[u8]) -> (b: bool)
    ensures
        b == spec_png_check(bytes@),
{
    match_signature(bytes, &PNG_PREFIX, Some(&PNG_SUFFIX))
}

/// Width and height from the IHDR chunk; `Truncated` where the buffer ends
/// before the end of the height field.
pub fn png_size(bytes: &[u8]) -> (r: Result<(u32, u32), Malformation>)
    ensures
        r == spec_png_size(bytes@),
        r is Ok <==> bytes@.len() >= 0x18,
{
    match (read_u32_be(bytes, 0x10), read_u32_be(bytes, 0x14)) {
        (Some(w), Some(h)) => Ok((w, h)),
        _ => Err(Malformation::Truncated),
    }
}

} // verus!
