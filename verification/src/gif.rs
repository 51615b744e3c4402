//! GIF: `"GIF87a"` or `"GIF89a"` in front, the trailer byte `0x3B` at the
//! end, and the logical screen's width and height as little-endian `u16`.

use crate::outcome::Malformation;
use crate::reader::{read_u16_le, spec_read_u16_le};
use crate::signature::{match_signature, spec_match_signature};
use vstd::prelude::*;

verus! {

/// `"GIF87a"`.
pub const GIF87A: [u8; 6] = [0x47, 0x49, 0x46, 0x38, 0x37, 0x61];

/// `"GIF89a"`.
pub const GIF89A: [u8; 6] = [0x47, 0x49, 0x46, 0x38, 0x39, 0x61];

/// The byte that ends a GIF file.
pub const GIF_TRAILER: [u8; 1] = [0x3B];

/// `s` starts with one of the two version strings and ends with the
/// trailer byte behind it.
pub open spec fn spec_gif_check(s: Seq<u8>) -> bool {
    spec_match_signature(s, GIF87A@, Some(GIF_TRAILER@)) || spec_match_signature(
        s,
        GIF89A@,
        Some(GIF_TRAILER@),
    )
}

/// Width at offset 6, height at offset 8.
pub open spec fn spec_gif_size(s: Seq<u8>) -> Result<(u32, u32), Malformation> {
    match (spec_read_u16_le(s, 6), spec_read_u16_le(s, 8)) {
        (Some(w), Some(h)) => Ok((w as u32, h as u32)),
        _ => Err(Malformation::Truncated),
    }
}

/// Does the buffer start with one of the two GIF versions and end with the
/// trailer byte?
pub fn gif_check(bytes: &[u8]) -> (b: bool)
    ensures
        b == spec_gif_check(bytes@),
{
    match_signature(bytes, &GIF87A, Some(&GIF_TRAILER)) || match_signature(
        bytes,
        &GIF89A,
        Some(&GIF_TRAILER),
    )
}

/// Width and height of the logical screen; `Truncated` where the buffer ends
/// before the end of the height field.
pub fn gif_size(bytes: &[u8]) -> (r: Result<(u32, u32), Malformation>)
    ensures
        r == spec_gif_size(bytes@),
        r is Ok <==> bytes@.len() >= 10,
{
    match (read_u16_le(bytes, 6), read_u16_le(bytes, 8)) {
        (Some(w), Some(h)) => Ok((w as u32, h as u32)),
        _ => Err(Malformation::Truncated),
    }
}

} // verus!
