//! Image format detection and pixel dimensions, read from the leading (and,
//! for some formats, trailing) bytes of a raw buffer. Nothing is decoded and
//! nothing is allocated; every function accepts any buffer, however short,
//! and none of them panics.
//!
//! - [`img`]: the entry points. `detect_format` and `get_img_type` classify a
//!   buffer, `inspect` tells a buffer of no known format from one whose body
//!   cannot be read, `get_img_size` gives width and height.
//! - [`outcome`]: the values these report.
//! - [`png`], [`bmp`], [`gif`], [`jpg`], [`webp`]: one signature check and
//!   one extractor per format.
//! - [`signature`]: the prefix-and-suffix matcher behind the checks.
//! - [`reader`]: bounds-checked fixed-width integers.

pub mod bmp;
pub mod gif;
pub mod img;
pub mod jpg;
pub mod outcome;
pub mod png;
pub mod reader;
pub mod signature;
pub mod webp;
