//! JPEG: a walk over the marker segments up to the first start-of-frame
//! segment, with the EXIF orientation taken from the APP1 segments met on the
//! way.
//!
//! A segment starts with `0xFF` and a type byte, followed by a big-endian
//! 16-bit length that counts itself and the payload, but not the two marker
//! bytes. Offsets inside a segment are counted from its `0xFF` byte.

use crate::outcome::Malformation;
use crate::reader::{
    be16, read_u16_be, read_u16_le, spec_read_u16_be, spec_read_u16_le, spec_read_u8_be,
};
use crate::signature::{equal_at, match_signature, spec_match_signature};
use vstd::prelude::*;
use vstd::slice::slice_subrange;

verus! {

/// Start-of-image marker.
pub const JPG_PREFIX: [u8; 2] = [0xFF, 0xD8];

/// `"Exif\0\0"`, which opens the payload of an EXIF segment.
pub const EXIF_TAG: [u8; 6] = [0x45, 0x78, 0x69, 0x66, 0x00, 0x00];

/// Type byte of an APP1 segment.
pub const APP1: u8 = 0xE1;

/// Type byte of a baseline start-of-frame segment.
pub const SOF0: u8 = 0xC0;

/// Type byte of a progressive start-of-frame segment.
pub const SOF2: u8 = 0xC2;

/// Id of the orientation entry of an EXIF directory.
pub const ORIENTATION: u16 = 0x0112;

/// `s` starts with the start-of-image marker.
pub open spec fn spec_jpg_check(s: Seq<u8>) -> bool {
    spec_match_signature(s, JPG_PREFIX@, None)
}

/// The 16-bit value at `i` in the byte order that the directory declares.
pub open spec fn spec_read_u16(s: Seq<u8>, i: int, little: bool) -> Option<u16> {
    if little {
        spec_read_u16_le(s, i)
    } else {
        spec_read_u16_be(s, i)
    }
}

/// Offset of directory entry `k` in its segment: entries are twelve bytes
/// each and start at offset 20.
pub open spec fn entry_offset(k: int) -> int {
    20 + 12 * k
}

/// The orientation that the entries `k, k + 1, .., count - 1` of the
/// directory in `seg` give: the value of the first of them whose id is
/// [`ORIENTATION`], `None` where none has that id, and an error as soon as an
/// entry that has to be read does not lie inside the segment.
pub open spec fn spec_scan_entries(seg: Seq<u8>, little: bool, k: int, count: int) -> Result<
    Option<u16>,
    Malformation,
>
    decreases count - k,
{
    if k >= count {
        Ok(None)
    } else {
        match spec_read_u16(seg, entry_offset(k), little) {
            None => Err(Malformation::ExifTooShort),
            Some(id) => if id == ORIENTATION {
                match spec_read_u16(seg, entry_offset(k) + 8, little) {
                    None => Err(Malformation::ExifTooShort),
                    Some(v) => Ok(Some(v)),
                }
            } else {
                spec_scan_entries(seg, little, k + 1, count)
            },
        }
    }
}

/// The orientation that the segment `seg` declares. A segment of fewer than
/// fourteen bytes, or one without the EXIF tag at offset 4, declares none.
/// Otherwise the byte at offset 10 gives the byte order (`'I'` for
/// little-endian, anything else for big-endian), the 16-bit value at
/// offset 18 the number of entries, and the entries are scanned in order.
pub open spec fn spec_get_jpg_orientation(seg: Seq<u8>) -> Result<Option<u16>, Malformation> {
    if seg.len() < 14 || seg.subrange(4, 10) != EXIF_TAG@ {
        Ok(None)
    } else {
        let little = seg[10] == 0x49;
        match spec_read_u16(seg, 18, little) {
            None => Err(Malformation::ExifTooShort),
            Some(count) => spec_scan_entries(seg, little, 0, count as int),
        }
    }
}

/// Width and height as a viewer shows them: orientations 6 and 8 turn the
/// picture by a quarter, so the stored width and height change places.
pub open spec fn oriented(width: u16, height: u16, orientation: u16) -> (u32, u32) {
    if orientation == 6 || orientation == 8 {
        (height as u32, width as u32)
    } else {
        (width as u32, height as u32)
    }
}

/// The result of walking the segments of `s` from offset `pos` on, with
/// `orientation` the value in force when the walk reaches `pos`.
///
/// A start-of-frame segment ends the walk with the height at offset 5 and the
/// width at offset 7, turned by the orientation in force. Any other segment
/// has to lie inside the buffer; an APP1 segment may replace the orientation,
/// and the walk goes on behind the segment.
pub open spec fn spec_walk_segments(s: Seq<u8>, pos: int, orientation: u16) -> Result<
    (u32, u32),
    Malformation,
>
    decreases s.len() - pos,
{
    match spec_read_u8_be(s, pos) {
        None => Err(Malformation::Truncated),
        Some(lead) => if lead != 0xFF {
            Err(Malformation::BadMarker)
        } else {
            match (spec_read_u8_be(s, pos + 1), spec_read_u16_be(s, pos + 2)) {
                (Some(typ), Some(length)) => {
                    let next = pos + 2 + length;
                    if typ == SOF0 || typ == SOF2 {
                        match (spec_read_u16_be(s, pos + 7), spec_read_u16_be(s, pos + 5)) {
                            (Some(w), Some(h)) => Ok(oriented(w, h, orientation)),
                            _ => Err(Malformation::Truncated),
                        }
                    } else if next > s.len() {
                        Err(Malformation::Truncated)
                    } else if typ == APP1 {
                        match spec_get_jpg_orientation(s.subrange(pos, next)) {
                            Err(e) => Err(e),
                            Ok(Some(found)) => spec_walk_segments(s, next, found),
                            Ok(None) => spec_walk_segments(s, next, orientation),
                        }
                    } else {
                        spec_walk_segments(s, next, orientation)
                    }
                },
                _ => Err(Malformation::Truncated),
            }
        },
    }
}

/// The walk starts behind the two bytes of the start-of-image marker, with
/// orientation 1 (upright).
pub open spec fn spec_jpg_size(s: Seq<u8>) -> Result<(u32, u32), Malformation> {
    spec_walk_segments(s, 2, 1)
}

/// Directory entry `k` of `seg` lies far enough inside the segment for its
/// id to be read, and the id is that of the orientation entry.
pub open spec fn is_orientation_entry(seg: Seq<u8>, little: bool, k: int) -> bool {
    spec_read_u16(seg, entry_offset(k), little) == Some(ORIENTATION)
}

/// Directory entry `k` of `seg` can be read and is not the orientation entry.
pub open spec fn is_other_entry(seg: Seq<u8>, little: bool, k: int) -> bool {
    spec_read_u16(seg, entry_offset(k), little) is Some && !is_orientation_entry(seg, little, k)
}

/// The scan of a directory stops at the first entry that is the orientation
/// entry or cannot be read. It gives a value exactly when that entry is the
/// orientation entry and its value can be read, and it gives none exactly
/// when all `count` entries can be read and none is the orientation entry.
pub proof fn lemma_scan_stops_at_first(seg: Seq<u8>, little: bool, from: int, count: int)
    requires
        0 <= from,
    ensures
        match spec_scan_entries(seg, little, from, count) {
            Ok(None) => forall|j: int| from <= j < count ==> is_other_entry(seg, little, j),
            Ok(Some(v)) => exists|k: int|
                {
                    &&& from <= k < count
                    &&& forall|j: int| from <= j < k ==> is_other_entry(seg, little, j)
                    &&& is_orientation_entry(seg, little, k)
                    &&& spec_read_u16(seg, entry_offset(k) + 8, little) == Some(v)
                },
            Err(e) => e == Malformation::ExifTooShort && exists|k: int|
                {
                    &&& from <= k < count
                    &&& forall|j: int| from <= j < k ==> is_other_entry(seg, little, j)
                    &&& !is_other_entry(seg, little, k)
                    &&& is_orientation_entry(seg, little, k) ==> spec_read_u16(
                        seg,
                        entry_offset(k) + 8,
                        little,
                    ) is None
                },
        },
    decreases count - from,
{
    if from < count && is_other_entry(seg, little, from) {
        lemma_scan_stops_at_first(seg, little, from + 1, count);
    }
}

/// Whatever the walk has found without running off the end of the buffer
/// stands, whatever bytes follow: dimensions once read, a bad marker and a
/// short EXIF directory are final. In particular nothing behind the first
/// start-of-frame segment, an EXIF segment included, changes the dimensions.
pub proof fn lemma_walk_ignores_what_follows(
    s: Seq<u8>,
    tail: Seq<u8>,
    pos: int,
    orientation: u16,
)
    requires
        0 <= pos,
        spec_walk_segments(s, pos, orientation) != Err::<(u32, u32), Malformation>(
            Malformation::Truncated,
        ),
    ensures
        spec_walk_segments(s + tail, pos, orientation) == spec_walk_segments(s, pos, orientation),
    decreases s.len() - pos,
{
    let longer = s + tail;
    let lead = spec_read_u8_be(s, pos);
    if lead == Some(0xFFu8) {
        let typ = spec_read_u8_be(s, pos + 1)->0;
        let length = spec_read_u16_be(s, pos + 2)->0;
        let next = pos + 2 + length;
        if typ != SOF0 && typ != SOF2 {
            assert(longer.subrange(pos, next) =~= s.subrange(pos, next));
            let found = if typ == APP1 {
                spec_get_jpg_orientation(s.subrange(pos, next))
            } else {
                Ok(None)
            };
            match found {
                Err(e) => {},
                Ok(Some(found)) => lemma_walk_ignores_what_follows(s, tail, next, found),
                Ok(None) => lemma_walk_ignores_what_follows(s, tail, next, orientation),
            }
        }
    }
}

/// The dimensions of a JPEG buffer, once they can be read, are those of every
/// buffer that continues it.
pub proof fn lemma_jpg_size_ignores_what_follows(s: Seq<u8>, tail: Seq<u8>)
    requires
        spec_jpg_size(s) is Ok,
    ensures
        spec_jpg_size(s + tail) == spec_jpg_size(s),
{
    lemma_walk_ignores_what_follows(s, tail, 2, 1);
}

/// `seg` is one whole segment of type `typ`: marker, type byte, and a length
/// field that accounts for every byte behind the marker.
pub open spec fn is_segment(seg: Seq<u8>, typ: u8) -> bool {
    seg.len() >= 4 && seg[0] == 0xFF && seg[1] == typ && seg.len() == 2 + be16(seg, 2)
}

/// `frame` starts as a start-of-frame segment does and reaches at least to
/// the end of the width field.
pub open spec fn is_frame_head(frame: Seq<u8>) -> bool {
    frame.len() >= 9 && frame[0] == 0xFF && (frame[1] == SOF0 || frame[1] == SOF2)
}

/// The orientation counts only where it stands before the frame. Take an
/// EXIF segment that declares orientation `o` and a start-of-frame segment:
/// with the EXIF segment first, width and height are turned by `o`; with the
/// start-of-frame segment first, they are given as stored.
pub proof fn lemma_orientation_counts_only_before_frame(exif: Seq<u8>, frame: Seq<u8>, o: u16)
    requires
        is_segment(exif, APP1),
        spec_get_jpg_orientation(exif) == Ok::<Option<u16>, Malformation>(Some(o)),
        is_frame_head(frame),
    ensures
        spec_jpg_size(JPG_PREFIX@ + exif + frame) == Ok::<(u32, u32), Malformation>(
            oriented(be16(frame, 7) as u16, be16(frame, 5) as u16, o),
        ),
        spec_jpg_size(JPG_PREFIX@ + frame + exif) == Ok::<(u32, u32), Malformation>(
            (be16(frame, 7) as u32, be16(frame, 5) as u32),
        ),
{
    let soi = JPG_PREFIX@;
    let before = soi + exif + frame;
    let next = 2 + exif.len() as int;
    assert(before.subrange(2, next) =~= exif);
    assert(spec_walk_segments(before, next, o) == Ok::<(u32, u32), Malformation>(
        oriented(be16(frame, 7) as u16, be16(frame, 5) as u16, o),
    ));

    let head = soi + frame;
    lemma_jpg_size_ignores_what_follows(head, exif);
}

/// Does the buffer start with the start-of-image marker?
pub fn jpg_check(bytes: &[u8]) -> (b: bool)
    ensures
        b == spec_jpg_check(bytes@),
{
    match_signature(bytes, &JPG_PREFIX, None)
}

/// The `u16` at offset `i`, little-endian where `little` says so.
fn read_u16(bytes: &[u8], i: usize, little: bool) -> (r: Option<u16>)
    ensures
        r == spec_read_u16(bytes@, i as int, little),
{
    if little {
        read_u16_le(bytes, i)
    } else {
        read_u16_be(bytes, i)
    }
}

/// The orientation that one segment declares, if it is an EXIF segment with
/// an orientation entry. `seg` is the whole segment, marker bytes included.
pub fn get_jpg_orientation(seg: &[u8]) -> (r: Result<Option<u16>, Malformation>)
    ensures
        r == spec_get_jpg_orientation(seg@),
{
    if seg.len() < 14 || !equal_at(seg, 4, &EXIF_TAG) {
        return Ok(None);
    }
    let little = seg[10] == 0x49;
    let count = match read_u16(seg, 18, little) {
        Some(count) => count,
        None => {
            return Err(Malformation::ExifTooShort);
        },
    };
    let mut k: u16 = 0;
    let mut idx: usize = 20;
    while k < count
        invariant
            k <= count,
            idx == entry_offset(k as int),
            spec_scan_entries(seg@, little, k as int, count as int) == spec_get_jpg_orientation(
                seg@,
            ),
        decreases count - k,
    {
        match read_u16(seg, idx, little) {
            None => {
                return Err(Malformation::ExifTooShort);
            },
            Some(id) => {
                if id == ORIENTATION {
                    return match read_u16(seg, idx + 8, little) {
                        None => Err(Malformation::ExifTooShort),
                        Some(v) => Ok(Some(v)),
                    };
                }
            },
        }
        idx += 12;
        k += 1;
    }
    Ok(None)
}

/// Width and height of a JPEG picture, as a viewer shows it: the values of
/// the first start-of-frame segment, exchanged where an EXIF segment before
/// it declares orientation 6 or 8. Segments behind the start-of-frame segment
/// are never looked at.
pub fn jpg_size(bytes: &[u8]) -> (r: Result<(u32, u32), Malformation>)
    ensures
        r == spec_jpg_size(bytes@),
{
    let len = bytes.len();
    let mut pos: usize = 2;
    let mut orientation: u16 = 1;
    while pos < len
        invariant
            len == bytes@.len(),
            spec_walk_segments(bytes@, pos as int, orientation) == spec_jpg_size(bytes@),
        decreases len - pos,
    {
        if bytes[pos] != 0xFF {
            return Err(Malformation::BadMarker);
        }
        if len - pos < 4 {
            return Err(Malformation::Truncated);
        }
        let typ = bytes[pos + 1];
        let length = match read_u16_be(bytes, pos + 2) {
            Some(length) => length as usize,
            None => {
                return Err(Malformation::Truncated);
            },
        };
        if typ == SOF0 || typ == SOF2 {
            if len - pos < 9 {
                return Err(Malformation::Truncated);
            }
            return match (read_u16_be(bytes, pos + 7), read_u16_be(bytes, pos + 5)) {
                (Some(w), Some(h)) => if orientation == 6 || orientation == 8 {
                    Ok((h as u32, w as u32))
                } else {
                    Ok((w as u32, h as u32))
                },
                _ => Err(Malformation::Truncated),
            };
        }
        if len - pos - 2 < length {
            return Err(Malformation::Truncated);
        }
        let next = pos + 2 + length;
        if typ == APP1 {
            match get_jpg_orientation(slice_subrange(bytes, pos, next)) {
                Err(e) => {
                    return Err(e);
                },
                Ok(Some(found)) => {
                    orientation = found;
                },
                Ok(None) => {},
            }
        }
        pos = next;
    }
    Err(Malformation::Truncated)
}

} // verus!
