//! The dispatcher: the five formats are tried in a fixed order, and the
//! first whose signature matches reads the dimensions.

use crate::bmp::{bmp_check, bmp_size, spec_bmp_check, spec_bmp_size, BMP_PREFIX};
use crate::gif::{gif_check, gif_size, spec_gif_check, spec_gif_size, GIF87A, GIF89A, GIF_TRAILER};
use crate::jpg::{jpg_check, jpg_size, spec_jpg_check, spec_jpg_size, JPG_PREFIX};
use crate::outcome::{spec_type_name, FormatTag, Malformation, Outcome};
use crate::png::{png_check, png_size, spec_png_check, spec_png_size, PNG_PREFIX, PNG_SUFFIX};
use crate::signature::{lemma_signature_bytes, spec_match_signature};
use crate::webp::{spec_webp_check, spec_webp_size, webp_check, webp_size, RIFF, WEBP};
use vstd::prelude::*;

verus! {

/// The format of `s`: the first of PNG, BMP, GIF, JPEG and WEBP whose
/// signature `s` carries, `Unknown` where it carries none.
pub open spec fn spec_format(s: Seq<u8>) -> FormatTag {
    if spec_png_check(s) {
        FormatTag::Png
    } else if spec_bmp_check(s) {
        FormatTag::Bmp
    } else if spec_gif_check(s) {
        FormatTag::Gif
    } else if spec_jpg_check(s) {
        FormatTag::Jpeg
    } else if spec_webp_check(s) {
        FormatTag::Webp
    } else {
        FormatTag::Unknown
    }
}

/// The outcome for a buffer whose signature announced `tag`, given what the
/// extractor paired with `tag` made of it.
pub open spec fn outcome_of(tag: FormatTag, size: Result<(u32, u32), Malformation>) -> Outcome {
    match size {
        Ok((width, height)) => Outcome::Detected { tag, width, height },
        Err(reason) => Outcome::Malformed(reason),
    }
}

/// The outcome for `s`: the first format whose signature matches reads the
/// dimensions with its own extractor; where no signature matches, the
/// outcome is `Unknown`.
pub open spec fn spec_inspect(s: Seq<u8>) -> Outcome {
    if spec_png_check(s) {
        outcome_of(FormatTag::Png, spec_png_size(s))
    } else if spec_bmp_check(s) {
        outcome_of(FormatTag::Bmp, spec_bmp_size(s))
    } else if spec_gif_check(s) {
        outcome_of(FormatTag::Gif, spec_gif_size(s))
    } else if spec_jpg_check(s) {
        outcome_of(FormatTag::Jpeg, spec_jpg_size(s))
    } else if spec_webp_check(s) {
        outcome_of(FormatTag::Webp, spec_webp_size(s))
    } else {
        Outcome::Unknown
    }
}

/// Width and height of `s`, with `(0, 0)` standing for every outcome but
/// `Detected`.
pub open spec fn spec_img_size(s: Seq<u8>) -> (u32, u32) {
    match spec_inspect(s) {
        Outcome::Detected { tag, width, height } => (width, height),
        _ => (0, 0),
    }
}

/// The first byte that each signature asks for. No two ask for the same.
pub proof fn lemma_leading_byte(s: Seq<u8>)
    ensures
        PNG_PREFIX@.is_prefix_of(s) ==> s[0] == 0x89,
        spec_png_check(s) ==> s[0] == 0x89,
        spec_bmp_check(s) ==> s[0] == 0x42,
        spec_gif_check(s) ==> s[0] == 0x47,
        spec_jpg_check(s) ==> s[0] == 0xFF,
        spec_webp_check(s) ==> s[0] == 0x52,
{
    if PNG_PREFIX@.is_prefix_of(s) {
        lemma_signature_bytes(s, PNG_PREFIX@, None);
    }
    if spec_bmp_check(s) {
        lemma_signature_bytes(s, BMP_PREFIX@, None);
    }
    if spec_match_signature(s, GIF87A@, Some(GIF_TRAILER@)) {
        lemma_signature_bytes(s, GIF87A@, Some(GIF_TRAILER@));
    }
    if spec_match_signature(s, GIF89A@, Some(GIF_TRAILER@)) {
        lemma_signature_bytes(s, GIF89A@, Some(GIF_TRAILER@));
    }
    if spec_jpg_check(s) {
        lemma_signature_bytes(s, JPG_PREFIX@, None);
    }
}

/// The five signatures exclude one another. So the order in which they are
/// tried decides nothing: a format is detected exactly when its own
/// signature matches.
pub proof fn lemma_signatures_exclusive(s: Seq<u8>)
    ensures
        spec_format(s) == FormatTag::Png <==> spec_png_check(s),
        spec_format(s) == FormatTag::Bmp <==> spec_bmp_check(s),
        spec_format(s) == FormatTag::Gif <==> spec_gif_check(s),
        spec_format(s) == FormatTag::Jpeg <==> spec_jpg_check(s),
        spec_format(s) == FormatTag::Webp <==> spec_webp_check(s),
        spec_format(s) == FormatTag::Unknown <==> !(spec_png_check(s) || spec_bmp_check(s)
            || spec_gif_check(s) || spec_jpg_check(s) || spec_webp_check(s)),
        spec_png_check(s) ==> spec_inspect(s) == outcome_of(FormatTag::Png, spec_png_size(s)),
        spec_bmp_check(s) ==> spec_inspect(s) == outcome_of(FormatTag::Bmp, spec_bmp_size(s)),
        spec_gif_check(s) ==> spec_inspect(s) == outcome_of(FormatTag::Gif, spec_gif_size(s)),
        spec_jpg_check(s) ==> spec_inspect(s) == outcome_of(FormatTag::Jpeg, spec_jpg_size(s)),
        spec_webp_check(s) ==> spec_inspect(s) == outcome_of(FormatTag::Webp, spec_webp_size(s)),
{
    lemma_leading_byte(s);
}

/// A format is detected by its signature alone: whatever `body` stands
/// between the opening and the closing bytes, or behind the opening bytes of
/// a format that has no closing ones, the buffer has that format. For WEBP
/// the four bytes of the RIFF size field, `size`, may be anything too.
pub proof fn lemma_detected_whatever_the_body(size: Seq<u8>, body: Seq<u8>)
    requires
        size.len() == 4,
    ensures
        spec_format(PNG_PREFIX@ + body + PNG_SUFFIX@) == FormatTag::Png,
        spec_format(BMP_PREFIX@ + body) == FormatTag::Bmp,
        spec_format(GIF87A@ + body + GIF_TRAILER@) == FormatTag::Gif,
        spec_format(GIF89A@ + body + GIF_TRAILER@) == FormatTag::Gif,
        spec_format(JPG_PREFIX@ + body) == FormatTag::Jpeg,
        spec_format(RIFF@ + size + WEBP@ + body) == FormatTag::Webp,
{
    let png = PNG_PREFIX@ + body + PNG_SUFFIX@;
    assert(png.subrange(0, 8) =~= PNG_PREFIX@);
    assert(png.subrange(png.len() - 8, png.len() as int) =~= PNG_SUFFIX@);
    lemma_signatures_exclusive(png);

    let bmp = BMP_PREFIX@ + body;
    assert(bmp.subrange(0, 2) =~= BMP_PREFIX@);
    lemma_signatures_exclusive(bmp);

    let gif87 = GIF87A@ + body + GIF_TRAILER@;
    assert(gif87.subrange(0, 6) =~= GIF87A@);
    assert(gif87.subrange(gif87.len() - 1, gif87.len() as int) =~= GIF_TRAILER@);
    lemma_signatures_exclusive(gif87);

    let gif89 = GIF89A@ + body + GIF_TRAILER@;
    assert(gif89.subrange(0, 6) =~= GIF89A@);
    assert(gif89.subrange(gif89.len() - 1, gif89.len() as int) =~= GIF_TRAILER@);
    lemma_signatures_exclusive(gif89);

    let jpg = JPG_PREFIX@ + body;
    assert(jpg.subrange(0, 2) =~= JPG_PREFIX@);
    lemma_signatures_exclusive(jpg);

    let webp = RIFF@ + size + WEBP@ + body;
    assert(webp.subrange(0, 4) =~= RIFF@);
    assert(webp.subrange(8, 12) =~= WEBP@);
    lemma_signatures_exclusive(webp);
}

/// Every signature takes at least two bytes: a shorter buffer has no format.
pub proof fn lemma_short_buffer_is_unknown(s: Seq<u8>)
    requires
        s.len() < 2,
    ensures
        spec_format(s) == FormatTag::Unknown,
        spec_inspect(s) == Outcome::Unknown,
        spec_img_size(s) == (0u32, 0u32),
{
}

/// A buffer that starts as a PNG file does, but ends before the end of the
/// height field, never gives dimensions. With the closing bytes in place it
/// is reported as truncated; without them it has no format at all.
pub proof fn lemma_truncated_png(s: Seq<u8>)
    requires
        PNG_PREFIX@.is_prefix_of(s),
        s.len() < 0x18,
    ensures
        spec_png_check(s) ==> spec_inspect(s) == Outcome::Malformed(Malformation::Truncated),
        !spec_png_check(s) ==> spec_inspect(s) == Outcome::Unknown,
        spec_img_size(s) == (0u32, 0u32),
{
    lemma_leading_byte(s);
}

/// What is reported of a buffer depends on its contents alone: two buffers
/// with the same bytes, or one buffer looked at twice, give the same format,
/// the same outcome and the same dimensions.
pub proof fn lemma_same_bytes_same_answer(a: &[u8], b: &[u8])
    requires
        a@ == b@,
    ensures
        spec_format(a@) == spec_format(b@),
        spec_inspect(a@) == spec_inspect(b@),
        spec_img_size(a@) == spec_img_size(b@),
{
}

/// An outcome names a format exactly when a signature matched, and then it
/// is the format that was detected; dimensions other than `(0, 0)` come from
/// a detected format only.
pub proof fn lemma_outcome_agrees_with_format(s: Seq<u8>)
    ensures
        spec_inspect(s).well_formed(),
        spec_inspect(s) is Unknown <==> spec_format(s) == FormatTag::Unknown,
        spec_inspect(s) matches Outcome::Detected { tag, width, height } ==> tag == spec_format(s)
            && spec_img_size(s) == (width, height),
        spec_img_size(s) != (0u32, 0u32) ==> spec_inspect(s) is Detected,
{
}

/// Classifies a buffer by its signature. Never fails: a buffer that is too
/// short for every signature is `Unknown`.
pub fn detect_format(bytes: &[u8]) -> (tag: FormatTag)
    ensures
        tag == spec_format(bytes@),
        bytes@.len() < 2 ==> tag == FormatTag::Unknown,
{
    if png_check(bytes) {
        FormatTag::Png
    } else if bmp_check(bytes) {
        FormatTag::Bmp
    } else if gif_check(bytes) {
        FormatTag::Gif
    } else if jpg_check(bytes) {
        FormatTag::Jpeg
    } else if webp_check(bytes) {
        FormatTag::Webp
    } else {
        FormatTag::Unknown
    }
}

/// Packs what an extractor returned into an outcome.
fn to_outcome(tag: FormatTag, size: Result<(u32, u32), Malformation>) -> (r: Outcome)
    ensures
        r == outcome_of(tag, size),
{
    match size {
        Ok((width, height)) => Outcome::Detected { tag, width, height },
        Err(reason) => Outcome::Malformed(reason),
    }
}

/// Detects the format and reads the dimensions, keeping apart the buffer
/// that has no known signature from the one whose body cannot be read.
pub fn inspect(bytes: &[u8]) -> (outcome: Outcome)
    ensures
        outcome == spec_inspect(bytes@),
        outcome.well_formed(),
        outcome is Unknown <==> spec_format(bytes@) == FormatTag::Unknown,
        outcome matches Outcome::Detected { tag, .. } ==> tag == spec_format(bytes@),
        PNG_PREFIX@.is_prefix_of(bytes@) && bytes@.len() < 0x18 ==> !(outcome is Detected),
{
    proof {
        if PNG_PREFIX@.is_prefix_of(bytes@) && bytes@.len() < 0x18 {
            lemma_truncated_png(bytes@);
        }
    }
    if png_check(bytes) {
        to_outcome(FormatTag::Png, png_size(bytes))
    } else if bmp_check(bytes) {
        to_outcome(FormatTag::Bmp, bmp_size(bytes))
    } else if gif_check(bytes) {
        to_outcome(FormatTag::Gif, gif_size(bytes))
    } else if jpg_check(bytes) {
        to_outcome(FormatTag::Jpeg, jpg_size(bytes))
    } else if webp_check(bytes) {
        to_outcome(FormatTag::Webp, webp_size(bytes))
    } else {
        Outcome::Unknown
    }
}

/// Width and height of the picture in `bytes`; `(0, 0)` where the format is
/// not recognised or the body is too short or malformed.
pub fn get_img_size(bytes: &[u8]) -> (size: (u32, u32))
    ensures
        size == spec_img_size(bytes@),
        spec_format(bytes@) == FormatTag::Unknown ==> size == (0u32, 0u32),
{
    match inspect(bytes) {
        Outcome::Detected { tag: _, width, height } => (width, height),
        _ => (0, 0),
    }
}

/// Name of the format of `bytes`: `"PNG"`, `"BMP"`, `"GIF"`, `"JPG"` or
/// `"WEBP"`; the empty string where no signature matches.
pub fn get_img_type(bytes: &[u8]) -> (name: &'static str)
    ensures
        name@ == spec_type_name(spec_format(bytes@)),
{
    detect_format(bytes).name()
}

} // verus!
