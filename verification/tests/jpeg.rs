use imgs::img::{detect_format, get_img_size, inspect};
use imgs::jpg::{get_jpg_orientation, jpg_check, jpg_size};
use imgs::outcome::{FormatTag, Malformation, Outcome};

const SOI: [u8; 2] = [0xFF, 0xD8];

/// A segment of the given type whose payload is `payload`.
fn segment(typ: u8, payload: &[u8]) -> Vec<u8> {
    let length = (payload.len() + 2) as u16;
    let mut v = vec![0xFF, typ];
    v.extend_from_slice(&length.to_be_bytes());
    v.extend_from_slice(payload);
    v
}

fn frame(typ: u8, width: u16, height: u16) -> Vec<u8> {
    let mut payload = vec![8];
    payload.extend_from_slice(&height.to_be_bytes());
    payload.extend_from_slice(&width.to_be_bytes());
    payload.extend_from_slice(&[3, 1, 0x22, 0, 2, 0x11, 1, 3, 0x11, 1]);
    segment(typ, &payload)
}

fn u16_in(little: bool, value: u16) -> [u8; 2] {
    if little {
        value.to_le_bytes()
    } else {
        value.to_be_bytes()
    }
}

fn u32_in(little: bool, value: u32) -> [u8; 4] {
    if little {
        value.to_le_bytes()
    } else {
        value.to_be_bytes()
    }
}

/// An APP1 segment with an EXIF directory of short entries `(id, value)`.
fn exif(little: bool, entries: &[(u16, u16)]) -> Vec<u8> {
    let mut payload = b"Exif\0\0".to_vec();
    payload.extend_from_slice(if little { b"II" } else { b"MM" });
    payload.extend_from_slice(&u16_in(little, 42));
    payload.extend_from_slice(&u32_in(little, 8));
    payload.extend_from_slice(&u16_in(little, entries.len() as u16));
    for (id, value) in entries.iter() {
        payload.extend_from_slice(&u16_in(little, *id));
        payload.extend_from_slice(&u16_in(little, 3));
        payload.extend_from_slice(&u32_in(little, 1));
        payload.extend_from_slice(&u16_in(little, *value));
        payload.extend_from_slice(&[0, 0]);
    }
    payload.extend_from_slice(&[0, 0, 0, 0]);
    segment(0xE1, &payload)
}

fn jpeg(segments: &[Vec<u8>]) -> Vec<u8> {
    let mut v = SOI.to_vec();
    for s in segments.iter() {
        v.extend_from_slice(s);
    }
    v
}

fn detected(width: u32, height: u32) -> Outcome {
    Outcome::Detected { tag: FormatTag::Jpeg, width, height }
}

#[test]
fn baseline_frame_gives_width_and_height() {
    let v = jpeg(&[frame(0xC0, 1080, 1920)]);
    assert!(jpg_check(&v));
    assert_eq!(detect_format(&v), FormatTag::Jpeg);
    assert_eq!(jpg_size(&v), Ok((1080, 1920)));
    assert_eq!(get_img_size(&v), (1080, 1920));
    assert_eq!(inspect(&v), detected(1080, 1920));
}

#[test]
fn progressive_frame_gives_width_and_height() {
    let v = jpeg(&[frame(0xC2, 4000, 3000)]);
    assert_eq!(get_img_size(&v), (4000, 3000));
}

#[test]
fn other_frame_types_are_passed_over() {
    let v = jpeg(&[frame(0xC1, 10, 20), frame(0xC0, 30, 40)]);
    assert_eq!(get_img_size(&v), (30, 40));
    let w = jpeg(&[frame(0xC3, 10, 20)]);
    assert_eq!(inspect(&w), Outcome::Malformed(Malformation::Truncated));
}

#[test]
fn segments_before_the_frame_are_skipped() {
    let app0 = segment(0xE0, b"JFIF\0\x01\x01\0\0\x01\0\x01\0\0");
    let dqt = segment(0xDB, &[0x55; 65]);
    let v = jpeg(&[app0, dqt, frame(0xC0, 640, 480)]);
    assert_eq!(get_img_size(&v), (640, 480));
}

#[test]
fn orientation_eight_before_the_frame_swaps() {
    let v = jpeg(&[exif(false, &[(0x0112, 8)]), frame(0xC0, 1080, 1920)]);
    assert_eq!(get_img_size(&v), (1920, 1080));
    assert_eq!(inspect(&v), detected(1920, 1080));
}

#[test]
fn orientation_eight_behind_the_frame_does_not_swap() {
    let v = jpeg(&[frame(0xC0, 1080, 1920), exif(false, &[(0x0112, 8)])]);
    assert_eq!(get_img_size(&v), (1080, 1920));
    assert_eq!(inspect(&v), detected(1080, 1920));
}

#[test]
fn orientation_six_swaps() {
    let v = jpeg(&[exif(true, &[(0x0112, 6)]), frame(0xC2, 1080, 1920)]);
    assert_eq!(get_img_size(&v), (1920, 1080));
}

#[test]
fn other_orientations_do_not_swap() {
    for o in [0u16, 1, 2, 3, 4, 5, 7, 9, 0x0600, 0x0800] {
        let v = jpeg(&[exif(false, &[(0x0112, o)]), frame(0xC0, 1080, 1920)]);
        assert_eq!(get_img_size(&v), (1080, 1920));
    }
}

#[test]
fn bytes_behind_the_frame_change_nothing() {
    let head = jpeg(&[exif(false, &[(0x0112, 6)]), frame(0xC0, 300, 200)]);
    let expected = get_img_size(&head);
    assert_eq!(expected, (200, 300));
    let mut longer = head.clone();
    longer.extend_from_slice(&exif(false, &[(0x0112, 1)]));
    assert_eq!(get_img_size(&longer), expected);
    longer.extend_from_slice(&[0x00, 0x12, 0xFF]);
    assert_eq!(get_img_size(&longer), expected);
    assert_eq!(get_img_size(&head[..head.len() - 10]), expected);
}

#[test]
fn later_exif_segment_replaces_the_earlier() {
    let v = jpeg(&[
        exif(false, &[(0x0112, 6)]),
        exif(true, &[(0x0112, 1)]),
        frame(0xC0, 300, 200),
    ]);
    assert_eq!(get_img_size(&v), (300, 200));
    let w = jpeg(&[
        exif(false, &[(0x0112, 1)]),
        exif(true, &[(0x0112, 8)]),
        frame(0xC0, 300, 200),
    ]);
    assert_eq!(get_img_size(&w), (200, 300));
}

#[test]
fn exif_without_orientation_keeps_what_was_found() {
    let v = jpeg(&[
        exif(false, &[(0x0112, 6)]),
        exif(false, &[(0x010F, 8), (0x0110, 8)]),
        frame(0xC0, 300, 200),
    ]);
    assert_eq!(get_img_size(&v), (200, 300));
    let w = jpeg(&[exif(false, &[]), frame(0xC0, 300, 200)]);
    assert_eq!(get_img_size(&w), (300, 200));
}

#[test]
fn app1_without_exif_tag_is_skipped() {
    let xmp = segment(0xE1, b"http://ns.adobe.com/xap/1.0/\0<x:xmpmeta/>");
    let v = jpeg(&[xmp, frame(0xC0, 300, 200)]);
    assert_eq!(get_img_size(&v), (300, 200));
}

#[test]
fn short_app1_is_skipped() {
    let v = jpeg(&[segment(0xE1, b"Exif\0\0MM"), frame(0xC0, 300, 200)]);
    assert_eq!(get_img_size(&v), (300, 200));
    let w = jpeg(&[segment(0xE1, b""), frame(0xC0, 300, 200)]);
    assert_eq!(get_img_size(&w), (300, 200));
}

#[test]
fn orientation_of_a_segment() {
    assert_eq!(get_jpg_orientation(&exif(false, &[(0x0112, 8)])), Ok(Some(8)));
    assert_eq!(get_jpg_orientation(&exif(true, &[(0x0112, 6)])), Ok(Some(6)));
    assert_eq!(get_jpg_orientation(&exif(true, &[(0x0112, 0x1234)])), Ok(Some(0x1234)));
    assert_eq!(get_jpg_orientation(&exif(false, &[(0x0112, 0x1234)])), Ok(Some(0x1234)));
    assert_eq!(get_jpg_orientation(&exif(false, &[])), Ok(None));
    assert_eq!(get_jpg_orientation(&exif(true, &[(0x0100, 7), (0x0101, 7)])), Ok(None));
    assert_eq!(get_jpg_orientation(&[]), Ok(None));
    assert_eq!(get_jpg_orientation(&[0xFF, 0xE1, 0x00, 0x02]), Ok(None));
}

#[test]
fn orientation_is_the_first_matching_entry() {
    let seg = exif(true, &[(0x010F, 6), (0x0112, 3), (0x0112, 8), (0x0131, 6)]);
    assert_eq!(get_jpg_orientation(&seg), Ok(Some(3)));
}

#[test]
fn byte_order_follows_the_directory_not_the_container() {
    let little = exif(true, &[(0x0112, 6)]);
    let big = exif(false, &[(0x0112, 6)]);
    assert_ne!(little, big);
    assert_eq!(get_jpg_orientation(&little), Ok(Some(6)));
    assert_eq!(get_jpg_orientation(&big), Ok(Some(6)));
    let mut misread = big.clone();
    misread[10] = 0x49;
    assert_eq!(get_jpg_orientation(&misread), Err(Malformation::ExifTooShort));
}

#[test]
fn any_byte_order_mark_but_i_is_big_endian() {
    let mut seg = exif(false, &[(0x0112, 8)]);
    seg[10] = b'X';
    seg[11] = b'X';
    assert_eq!(get_jpg_orientation(&seg), Ok(Some(8)));
}

#[test]
fn exif_directory_cut_before_the_count() {
    let mut payload = b"Exif\0\0MM\0\x2A\0\0\0\x08".to_vec();
    assert_eq!(get_jpg_orientation(&segment(0xE1, &payload)), Err(Malformation::ExifTooShort));
    payload.push(0);
    assert_eq!(get_jpg_orientation(&segment(0xE1, &payload)), Err(Malformation::ExifTooShort));
    payload.push(0);
    assert_eq!(get_jpg_orientation(&segment(0xE1, &payload)), Ok(None));
}

#[test]
fn exif_directory_with_fewer_entries_than_announced() {
    let mut seg = exif(false, &[(0x010F, 1), (0x0110, 1)]);
    seg[19] = 5;
    assert_eq!(get_jpg_orientation(&seg), Err(Malformation::ExifTooShort));
    let v = jpeg(&[seg, frame(0xC0, 300, 200)]);
    assert_eq!(inspect(&v), Outcome::Malformed(Malformation::ExifTooShort));
    assert_eq!(get_img_size(&v), (0, 0));
}

#[test]
fn exif_orientation_entry_cut_before_its_value() {
    let full = exif(false, &[(0x0112, 8)]);
    assert_eq!(get_jpg_orientation(&full[..30]), Ok(Some(8)));
    assert_eq!(get_jpg_orientation(&full[..29]), Err(Malformation::ExifTooShort));
    assert_eq!(get_jpg_orientation(&full[..22]), Err(Malformation::ExifTooShort));
    assert_eq!(get_jpg_orientation(&full[..21]), Err(Malformation::ExifTooShort));
}

#[test]
fn missing_marker_byte_is_a_bad_marker() {
    let v = jpeg(&[vec![0x00, 0xC0, 0x00, 0x11]]);
    assert_eq!(jpg_size(&v), Err(Malformation::BadMarker));
    assert_eq!(inspect(&v), Outcome::Malformed(Malformation::BadMarker));
    assert_eq!(get_img_size(&v), (0, 0));
}

#[test]
fn entropy_coded_data_ends_the_walk() {
    let sos = segment(0xDA, &[1, 1, 0, 0, 0x3F, 0]);
    let v = jpeg(&[sos, vec![0x12, 0x34, 0x56], frame(0xC0, 300, 200)]);
    assert_eq!(inspect(&v), Outcome::Malformed(Malformation::BadMarker));
}

#[test]
fn jpeg_without_a_frame_is_truncated() {
    assert_eq!(inspect(&SOI), Outcome::Malformed(Malformation::Truncated));
    let v = jpeg(&[segment(0xE0, b"JFIF\0")]);
    assert_eq!(inspect(&v), Outcome::Malformed(Malformation::Truncated));
    assert_eq!(get_img_size(&v), (0, 0));
}

#[test]
fn jpeg_cut_inside_a_segment_header_is_truncated() {
    assert_eq!(jpg_size(&[0xFF, 0xD8, 0xFF]), Err(Malformation::Truncated));
    assert_eq!(jpg_size(&[0xFF, 0xD8, 0xFF, 0xC0]), Err(Malformation::Truncated));
    assert_eq!(jpg_size(&[0xFF, 0xD8, 0xFF, 0xC0, 0x00]), Err(Malformation::Truncated));
    assert_eq!(jpg_size(&[0xFF, 0xD8, 0xFF, 0xC0, 0x00, 0x11]), Err(Malformation::Truncated));
}

#[test]
fn jpeg_cut_inside_the_frame_fields_is_truncated() {
    let v = jpeg(&[frame(0xC0, 300, 200)]);
    for n in 2..11 {
        assert_eq!(jpg_size(&v[..n]), Err(Malformation::Truncated));
    }
    assert_eq!(jpg_size(&v[..11]), Ok((300, 200)));
}

#[test]
fn segment_running_past_the_end_is_truncated() {
    let mut app = segment(0xE0, &[0; 20]);
    app.truncate(10);
    let v = jpeg(&[app]);
    assert_eq!(jpg_size(&v), Err(Malformation::Truncated));
    let mut cut = exif(false, &[(0x0112, 8)]);
    cut.pop();
    assert_eq!(jpg_size(&jpeg(&[cut])), Err(Malformation::Truncated));
}

#[test]
fn segment_length_counts_its_own_two_bytes() {
    let empty = vec![0xFF, 0xFE, 0x00, 0x02];
    let v = jpeg(&[empty, frame(0xC0, 300, 200)]);
    assert_eq!(get_img_size(&v), (300, 200));
}

#[test]
fn segment_length_below_two_still_advances() {
    let odd = vec![0xFF, 0xFE, 0x00, 0x00];
    let v = jpeg(&[odd.clone(), vec![0xFF, 0xC0], frame(0xC0, 300, 200)]);
    assert_eq!(jpg_size(&v), Err(Malformation::BadMarker));
    let mut w = SOI.to_vec();
    w.extend_from_slice(&[0xFF, 0xFE, 0x00, 0x00, 0x33, 0x44]);
    assert_eq!(jpg_size(&w), Err(Malformation::BadMarker));
    let mut x = SOI.to_vec();
    x.extend_from_slice(&[0xFF, 0xFE, 0x00, 0x00]);
    x.extend_from_slice(&frame(0xC0, 7, 9)[2..]);
    assert_eq!(jpg_size(&x), Err(Malformation::BadMarker));
}

#[test]
fn walk_starts_behind_the_first_two_bytes_whatever_they_are() {
    let mut v = vec![0x00, 0x00];
    v.extend_from_slice(&frame(0xC0, 12, 34));
    assert!(!jpg_check(&v));
    assert_eq!(jpg_size(&v), Ok((12, 34)));
    assert_eq!(get_img_size(&v), (0, 0));
    assert_eq!(jpg_size(&[]), Err(Malformation::Truncated));
    assert_eq!(jpg_size(&[0xFF]), Err(Malformation::Truncated));
}

#[test]
fn jpeg_answer_is_the_same_twice() {
    let v = jpeg(&[exif(false, &[(0x0112, 8)]), frame(0xC0, 1080, 1920)]);
    let before = v.clone();
    assert_eq!(get_img_size(&v), get_img_size(&v));
    assert_eq!(inspect(&v), inspect(&v));
    assert_eq!(v, before);
}
