//! What an inspection of a buffer can report.

use vstd::prelude::*;

verus! {

/// The container format that a buffer's signature announces.
#[derive(Clone, Copy, Debug, PartialEq, Eq, Structural)]
pub enum FormatTag {
    Png,
    Bmp,
    Gif,
    Jpeg,
    Webp,
    Unknown,
}

/// Why a buffer with a known signature gave no dimensions.
#[derive(Clone, Copy, Debug, PartialEq, Eq, Structural)]
pub enum Malformation {
    /// A field or a segment that has to be read lies past the end of the buffer.
    Truncated,
    /// A JPEG segment does not start with the byte `0xFF`.
    BadMarker,
    /// An EXIF directory announces entries that its segment does not hold.
    ExifTooShort,
}

/// The three ways an inspection can end.
#[derive(Clone, Copy, Debug, PartialEq, Eq, Structural)]
pub enum Outcome {
    /// The signature of `tag` matched and width and height were read.
    Detected { tag: FormatTag, width: u32, height: u32 },
    /// No signature matched.
    Unknown,
    /// A signature matched, but the body could not be read.
    Malformed(Malformation),
}

impl Outcome {
    /// Dimensions are only ever given for one of the five formats.
    pub open spec fn well_formed(self) -> bool {
        self matches Outcome::Detected { tag, .. } ==> tag != FormatTag::Unknown
    }
}

/// The short upper-case name of a format; the empty string for `Unknown`.
pub open spec fn spec_type_name(tag: FormatTag) -> Seq<char> {
    match tag {
        FormatTag::Png => "PNG"@,
        FormatTag::Bmp => "BMP"@,
        FormatTag::Gif => "GIF"@,
        FormatTag::Jpeg => "JPG"@,
        FormatTag::Webp => "WEBP"@,
        FormatTag::Unknown => ""@,
    }
}

impl FormatTag {
    /// The short upper-case name of the format; the empty string for `Unknown`.
    pub fn name(&self) -> (r: &'static str)
        ensures
            r@ == spec_type_name(*self),
    {
        match self {
            FormatTag::Png => "PNG",
            FormatTag::Bmp => "BMP",
            FormatTag::Gif => "GIF",
            FormatTag::Jpeg => "JPG",
            FormatTag::Webp => "WEBP",
            FormatTag::Unknown => "",
        }
    }
}

} // verus!
