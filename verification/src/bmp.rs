//! BMP with the common bitmap-info header: `"BM"` in front, width and height
//! as little-endian `u32`. Other header layouts keep their fields elsewhere
//! and are read as if they had this one.

use crate::outcome::Malformation;
use crate::reader::{read_u32_le, spec_read_u32_le};
use crate::signature::{match_signature, spec_match_signature};
use vstd::prelude::*;

verus! {

/// `"BM"`.
pub const BMP_PREFIX: [u8; 2] = [0x42, 0x4D];

/// `s` starts with `"BM"`.
pub open spec fn spec_bmp_check(s: Seq<u8>) -> bool {
    spec_match_signature(s, BMP_PREFIX@, None)
}

/// Width at offset `0x12`, height at offset `0x16`.
pub open spec fn spec_bmp_size(s: Seq<u8>) -> Result<(u32, u32), Malformation> {
    match (spec_read_u32_le(s, 0x12), spec_read_u32_le(s, 0x16)) {
        (Some(w), Some(h)) => Ok((w, h)),
        _ => Err(Malformation::Truncated),
    }
}

/// Does the buffer start with `"BM"`?
pub fn bmp_check(bytes: &[u8]) -> (b: bool)
    ensures
        b == spec_bmp_check(bytes@),
{
    match_signature(bytes, &BMP_PREFIX, None)
}

/// Width and height from the bitmap-info header; `Truncated` where the
/// buffer ends before the end of the height field.
pub fn bmp_size(bytes: &[u8]) -> (r: Result<(u32, u32), Malformation>)
    ensures
        r == spec_bmp_size(bytes@),
        r is Ok <==> bytes@.len() >= 0x1A,
{
    match (read_u32_le(bytes, 0x12), read_u32_le(bytes, 0x16)) {
        (Some(w), Some(h)) => Ok((w, h)),
        _ => Err(Malformation::Truncated),
    }
}

} // verus!
