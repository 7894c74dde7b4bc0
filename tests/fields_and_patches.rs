use iview_exif::block::ExifBlock;
use iview_exif::fields::fixed2_string;
use iview_exif::patch::resolution_to_rational;
use iview_exif::thumbnail::fit_thumbnail;
use iview_exif::value::TagValue;

fn block(be: bool, body: &[u8]) -> Vec<u8> {
    let mut b = b"Exif\0\0".to_vec();
    b.extend_from_slice(if be { b"MM" } else { b"II" });
    b.extend_from_slice(&u16b(be, 0x2a));
    b.extend_from_slice(&u32b(be, 8));
    b.extend_from_slice(body);
    b
}

fn u16b(be: bool, v: u16) -> [u8; 2] {
    if be { v.to_be_bytes() } else { v.to_le_bytes() }
}

fn u32b(be: bool, v: u32) -> [u8; 4] {
    if be { v.to_be_bytes() } else { v.to_le_bytes() }
}

fn entry(be: bool, tag: u16, fmt: u16, count: u32, value: [u8; 4]) -> Vec<u8> {
    let mut e = Vec::new();
    e.extend_from_slice(&u16b(be, tag));
    e.extend_from_slice(&u16b(be, fmt));
    e.extend_from_slice(&u32b(be, count));
    e.extend_from_slice(&value);
    e
}

fn short_value(be: bool, v: u16) -> [u8; 4] {
    let s = u16b(be, v);
    [s[0], s[1], 0, 0]
}

fn dir(be: bool, entries: &[Vec<u8>], next: u32) -> Vec<u8> {
    let mut d = u16b(be, entries.len() as u16).to_vec();
    for e in entries {
        d.extend_from_slice(e);
    }
    d.extend_from_slice(&u32b(be, next));
    d
}

fn open_all(b: &[u8]) -> ExifBlock {
    ExifBlock::open(b, b.len()).unwrap()
}

fn as_f64(r: iview_exif::fields::Ratio) -> f64 {
    r.num as f64 / r.den as f64
}

/// GPS directory with the given latitude reference.
fn gps_block(be: bool, lat_ref: u8) -> Vec<u8> {
    // IFD0 at rel 8: one GPSInfo entry -> rel 26.
    // GPS IFD at rel 26: 4 entries = 2 + 48 + 4 = 54 bytes; data at rel 80.
    let mut body = dir(be, &[entry(be, 0x8825, 4, 1, u32b(be, 26))], 0);
    body.extend_from_slice(&dir(
        be,
        &[
            entry(be, 0x0001, 2, 2, [lat_ref, 0, 0, 0]),
            entry(be, 0x0002, 5, 3, u32b(be, 80)),
            entry(be, 0x0003, 2, 2, [b'W', 0, 0, 0]),
            entry(be, 0x0004, 5, 3, u32b(be, 104)),
        ],
        0,
    ));
    for (n, d) in [(2u32, 1u32), (30, 1), (0, 1), (10, 1), (15, 1), (36, 1)] {
        body.extend_from_slice(&u32b(be, n));
        body.extend_from_slice(&u32b(be, d));
    }
    block(be, &body)
}

#[test]
fn gps_south_latitude_is_negative_two_and_a_half() {
    for be in [true, false] {
        let blk = open_all(&gps_block(be, b'S'));
        let lat = blk.gps_coordinate("GPSLatitude", "GPSLatitudeRef", 'S').unwrap();
        assert_eq!(as_f64(lat), -2.5);
        let (la, lo) = blk.gps_position().unwrap();
        assert_eq!(as_f64(la), -2.5);
        assert_eq!(as_f64(lo), -10.26);
        let north = open_all(&gps_block(be, b'N'));
        assert_eq!(as_f64(north.get_num_field("GPSLatitude").unwrap()), 2.5);
        assert_eq!(as_f64(north.gps_position().unwrap().0), 2.5);
    }
}

#[test]
fn zero_denominator_gives_no_number() {
    let be = true;
    let mut body = dir(be, &[entry(be, 0x011a, 5, 1, u32b(be, 26))], 0);
    body.extend_from_slice(&u32b(be, 72));
    body.extend_from_slice(&u32b(be, 0));
    let blk = open_all(&block(be, &body));
    assert!(blk.get_num_field("XResolution").is_none());
    assert!(blk.get_field("XResolution").is_none());
}

#[test]
fn display_text_of_fields() {
    let be = false;
    // IFD0 at rel 8 with 4 entries: 54 bytes; data at rel 62.
    let mut body = dir(
        be,
        &[
            entry(be, 0x011a, 5, 1, u32b(be, 62)),
            entry(be, 0x011b, 5, 1, u32b(be, 70)),
            entry(be, 0x0102, 3, 3, u32b(be, 78)),
            entry(be, 0x9204, 9, 1, u32b(be, (-7i32) as u32)),
        ],
        0,
    );
    body.extend_from_slice(&u32b(be, 145));
    body.extend_from_slice(&u32b(be, 2));
    body.extend_from_slice(&u32b(be, 1));
    body.extend_from_slice(&u32b(be, 8));
    for v in [8u16, 16, 8] {
        body.extend_from_slice(&u16b(be, v));
    }
    let blk = open_all(&block(be, &body));
    assert_eq!(blk.get_field("XResolution").unwrap(), "72.50");
    assert_eq!(blk.get_field("YResolution").unwrap(), "0.12");
    assert_eq!(blk.get_field("BitsPerSample").unwrap(), "[8,16,8]");
    assert_eq!(blk.get_field("ExposureBiasValue").unwrap(), "-7");
    assert_eq!(blk.get_num_field("ExposureBiasValue").unwrap().num, -7);
    assert!(blk.get_num_field("BitsPerSample").is_none());
    assert!(blk.get_field("Missing").is_none());
    assert_eq!(fixed2_string(1, 3), "0.33");
    assert_eq!(fixed2_string(2, 3), "0.67");
    assert_eq!(fixed2_string(3, 8), "0.38");
}

#[test]
fn lookup_by_occurrence_and_case() {
    let be = true;
    let body = dir(
        be,
        &[
            entry(be, 0x0112, 3, 1, short_value(be, 1)),
            entry(be, 0x0100, 3, 1, short_value(be, 640)),
            entry(be, 0x0112, 3, 1, short_value(be, 8)),
        ],
        0,
    );
    let blk = open_all(&block(be, &body));
    assert!(matches!(blk.find("Orientation", 0, true).unwrap().value, TagValue::UShort(1)));
    assert!(matches!(blk.find("Orientation", 1, true).unwrap().value, TagValue::UShort(8)));
    assert!(blk.find("Orientation", 2, true).is_none());
    assert!(blk.find("orientation", 0, true).is_none());
    assert!(matches!(blk.find("ORIENTATION", 1, false).unwrap().value, TagValue::UShort(8)));
    let t = blk.find_tag("imagewidth", 0, false).unwrap();
    assert_eq!(t.name, "ImageWidth");
    assert_eq!(t.offset, 14 + 2 + 12 + 8);
    assert_eq!(blk.find_index("Orientation", 1, true), Some(2));
    assert_eq!(blk.fields().len(), 3);
}

/// IFD0 with resolutions, orientation, date, and legacy dimensions.
fn save_block(be: bool) -> Vec<u8> {
    // 6 entries: 2 + 72 + 4 = 78 bytes at rel 8; data at rel 86.
    let mut body = dir(
        be,
        &[
            entry(be, 0x011a, 5, 1, u32b(be, 86)),
            entry(be, 0x011b, 5, 1, u32b(be, 94)),
            entry(be, 0x0112, 3, 1, short_value(be, 6)),
            entry(be, 0x0132, 2, 20, u32b(be, 102)),
            entry(be, 0x0100, 4, 1, u32b(be, 4000)),
            entry(be, 0x0101, 3, 1, short_value(be, 3000)),
        ],
        0,
    );
    for v in [72u32, 1, 72, 1] {
        body.extend_from_slice(&u32b(be, v));
    }
    body.extend_from_slice(b"2001:02:03 04:05:06\0");
    block(be, &body)
}

#[test]
fn resolution_patch_round_trips() {
    for be in [true, false] {
        let mut blk = open_all(&save_block(be));
        blk.patch_fields(7_250_000, 30_000_000, 800, 600, b"2024:05:06 07:08:09");
        let again = open_all(&blk.raw_exif);
        let x = again.get_num_field("XResolution").unwrap();
        assert_eq!((x.num, x.den), (7_250_000, 100_000));
        assert!((as_f64(x) - 72.5).abs() <= 1.0 / 100_000.0);
        let y = again.get_num_field("YResolution").unwrap();
        assert_eq!((y.num, y.den), (300, 1));
        assert_eq!(again.get_num_field("Orientation").unwrap().num, 1);
        assert_eq!(again.get_field("DateTime").unwrap(), "2024:05:06 07:08:09");
        assert_eq!(again.get_num_field("ImageWidth").unwrap().num, 800);
        assert_eq!(again.get_num_field("ImageLength").unwrap().num, 600);
        assert_eq!(blk.raw_exif.len(), save_block(be).len());
    }
}

#[test]
fn resolution_rationals() {
    assert_eq!(resolution_to_rational(7_200_000), (72, 1));
    assert_eq!(resolution_to_rational(7_250_000), (7_250_000, 100_000));
    assert_eq!(resolution_to_rational(u64::MAX), (u32::MAX, 100_000));
}

#[test]
fn too_long_timestamp_is_not_written() {
    let be = false;
    let mut blk = open_all(&save_block(be));
    let before = blk.raw_exif.clone();
    blk.patch_fields(7_200_000, 7_200_000, 4000, 3000, b"2024:05:06 07:08:09 and more");
    assert_eq!(&blk.raw_exif[108..128], &before[108..128]);
    assert_eq!(open_all(&blk.raw_exif).get_field("DateTime").unwrap(), "2001:02:03 04:05:06");
}

#[test]
fn current_timestamp_is_stamped() {
    let mut blk = open_all(&save_block(true));
    blk.patch_exifdata(7_200_000, 7_200_000, 4000, 3000);
    let again = open_all(&blk.raw_exif);
    let stamp = again.get_field("DateTime").unwrap();
    assert_eq!(stamp.len(), 19);
    assert_ne!(stamp, "2001:02:03 04:05:06");
    let b = stamp.as_bytes();
    assert_eq!((b[4], b[7], b[10], b[13], b[16]), (b':', b':', b' ', b':', b':'));
}

fn thumb_block(be: bool, size: u32) -> Vec<u8> {
    let mut body = dir(be, &[entry(be, 0x0201, 4, 1, u32b(be, 38)), entry(be, 0x0202, 4, 1, u32b(be, size))], 0);
    body.extend_from_slice(&vec![9u8; size as usize]);
    block(be, &body)
}

#[test]
fn thumbnail_patch_needs_the_reserved_length() {
    let mut blk = open_all(&thumb_block(true, 4));
    let before = blk.raw_exif.clone();
    blk.patch_thumbnail(&[1, 2, 3]);
    assert_eq!(blk.raw_exif, before);
    blk.patch_thumbnail(&[1, 2, 3, 4, 5]);
    assert_eq!(blk.raw_exif, before);
    blk.patch_thumbnail(&[1, 2, 3, 4]);
    assert_eq!(&blk.raw_exif[44..48], &[1, 2, 3, 4]);
    assert_eq!(&blk.raw_exif[..44], &before[..44]);
}

#[test]
fn fitted_thumbnail_is_padded_to_the_budget() {
    let rgb = vec![128u8; 4 * 4 * 3];
    let t = fit_thumbnail(&rgb, 4, 4, 4000);
    assert_eq!(t.len(), 4000);
    assert_eq!(&t[0..2], &[0xff, 0xd8]);
    assert_eq!(*t.last().unwrap(), 0);
    assert!(fit_thumbnail(&rgb, 4, 4, 10).is_empty());
}

#[test]
fn generated_thumbnail_fits_the_block() {
    let blk = open_all(&thumb_block(false, 3000));
    let rgba = vec![200u8; 32 * 24 * 4];
    let t = blk.generate_fitted_thumbnail(&rgba, 32, 24);
    assert_eq!(t.len(), 3000);
    assert_eq!(&t[0..2], &[0xff, 0xd8]);
    let mut patched = blk;
    patched.patch_thumbnail(&t);
    assert_eq!(&patched.raw_exif[44..46], &[0xff, 0xd8]);
}

#[test]
fn signed_rationals_keep_their_sign() {
    for be in [true, false] {
        // IFD0 at rel 8 with 3 entries: 42 bytes; data at rel 50.
        let mut body = dir(
            be,
            &[
                entry(be, 0x9204, 10, 1, u32b(be, 50)),
                entry(be, 0x9203, 10, 1, u32b(be, 58)),
                entry(be, 0x0014, 10, 3, u32b(be, 66)),
            ],
            0,
        );
        for v in [-1i32, 2, 3, -4, -2, 1, 30, 1, 0, 1] {
            body.extend_from_slice(&u32b(be, v as u32));
        }
        let blk = open_all(&block(be, &body));
        assert!(matches!(blk.entry_data_vector[0].value.value, TagValue::SRational(-1, 2)));
        assert_eq!(blk.get_field("ExposureBiasValue").unwrap(), "-0.50");
        let q = blk.get_num_field("ExposureBiasValue").unwrap();
        assert_eq!((q.num, q.den), (-1, 2));
        assert_eq!(blk.get_field("BrightnessValue").unwrap(), "-0.75");
        let q = blk.get_num_field("BrightnessValue").unwrap();
        assert_eq!((q.num, q.den), (-3, 4));
        let dms = blk.get_num_field("_20").unwrap();
        assert!(dms.den > 0);
        assert_eq!(as_f64(dms), -1.5);
    }
}
