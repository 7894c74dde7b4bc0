use iview_exif::block::ExifBlock;
use iview_exif::decode::{DocValue, ExifError};
use iview_exif::tags::{ExifTagId, FMT};
use iview_exif::value::TagValue;

/// Builds a metadata block: signature, byte-order marker, version, first
/// directory at offset 8 (absolute 14), then `body`.
fn block(be: bool, body: &[u8]) -> Vec<u8> {
    let mut b = b"Exif\0\0".to_vec();
    b.extend_from_slice(if be { b"MM" } else { b"II" });
    b.extend_from_slice(&u16b(be, 0x2a));
    b.extend_from_slice(&u32b(be, 8));
    b.extend_from_slice(body);
    b
}

fn u16b(be: bool, v: u16) -> [u8; 2] {
    if be { v.to_be_bytes() } else { v.to_le_bytes() }
}

fn u32b(be: bool, v: u32) -> [u8; 4] {
    if be { v.to_be_bytes() } else { v.to_le_bytes() }
}

/// One 12-byte directory entry.
fn entry(be: bool, tag: u16, fmt: u16, count: u32, value: [u8; 4]) -> Vec<u8> {
    let mut e = Vec::new();
    e.extend_from_slice(&u16b(be, tag));
    e.extend_from_slice(&u16b(be, fmt));
    e.extend_from_slice(&u32b(be, count));
    e.extend_from_slice(&value);
    e
}

fn short_value(be: bool, v: u16) -> [u8; 4] {
    let s = u16b(be, v);
    [s[0], s[1], 0, 0]
}

/// A directory with the given entries and next pointer.
fn dir(be: bool, entries: &[Vec<u8>], next: u32) -> Vec<u8> {
    let mut d = u16b(be, entries.len() as u16).to_vec();
    for e in entries {
        d.extend_from_slice(e);
    }
    d.extend_from_slice(&u32b(be, next));
    d
}

fn open_all(b: &[u8]) -> Result<ExifBlock, ExifError> {
    ExifBlock::open(b, b.len())
}

#[test]
fn minimal_block_has_only_length() {
    for be in [true, false] {
        let b = block(be, &dir(be, &[], 0));
        let blk = open_all(&b).unwrap();
        assert!(blk.entry_data_vector.is_empty());
        let root = blk.directories.last().unwrap();
        assert_eq!(root.len(), 1);
        assert_eq!(root[0].name, "Exiflength");
        assert!(matches!(root[0].value, DocValue::Number(20)));
    }
}

#[test]
fn oversized_directory_is_rejected() {
    let mut body = u16b(true, 5).to_vec();
    body.extend_from_slice(&[0u8; 4]);
    let b = block(true, &body);
    assert_eq!(open_all(&b).err(), Some(ExifError::IllegalDirectorySize));
}

#[test]
fn directory_two_bytes_short_is_tolerated() {
    let be = false;
    let mut body = u16b(be, 1).to_vec();
    body.extend_from_slice(&entry(be, 0x0112, 3, 1, short_value(be, 6)));
    body.extend_from_slice(&[0u8; 2]);
    let b = block(be, &body);
    let blk = open_all(&b).unwrap();
    assert_eq!(blk.entry_data_vector.len(), 1);
    let mut longer = b.clone();
    longer.push(0);
    assert_eq!(open_all(&longer).err(), Some(ExifError::IllegalDirectorySize));
}

#[test]
fn header_errors() {
    let good = block(true, &dir(true, &[], 0));
    let mut b = good.clone();
    b[3] = b'x';
    assert_eq!(open_all(&b).err(), Some(ExifError::NoHeader));
    let mut b = good.clone();
    b[6] = b'X';
    assert_eq!(open_all(&b).err(), Some(ExifError::BadAlignment));
    let mut b = good.clone();
    b[9] = 0x2b;
    assert_eq!(open_all(&b).err(), Some(ExifError::BadStart));
    let mut b = good.clone();
    b[13] = 4;
    assert_eq!(open_all(&b).err(), Some(ExifError::SuspiciousOffset));
    assert_eq!(ExifBlock::open(&good, good.len() + 1).err(), Some(ExifError::BadLength));
    assert_eq!(open_all(&good[0..5]).err(), Some(ExifError::NoHeader));
}

#[test]
fn illegal_format_is_rejected() {
    let be = true;
    let b = block(be, &dir(be, &[entry(be, 0x0112, 13, 1, [0; 4])], 0));
    assert_eq!(open_all(&b).err(), Some(ExifError::IllegalFormat));
}

#[test]
fn illegal_value_pointer_is_rejected() {
    let be = true;
    let b = block(be, &dir(be, &[entry(be, 0x0111, 4, 2, u32b(be, 1000))], 0));
    assert_eq!(open_all(&b).err(), Some(ExifError::IllegalValuePointer));
}

#[test]
fn illegal_directory_link_is_rejected() {
    let be = false;
    let b = block(be, &dir(be, &[entry(be, 0x8769, 4, 1, u32b(be, 5000))], 0));
    assert_eq!(open_all(&b).err(), Some(ExifError::IllegalDirectoryLink));
}

#[test]
fn bad_gps_component_count_is_rejected() {
    let be = true;
    // IFD0 at rel 8: one GPSInfo entry pointing to rel 26.
    let mut body = dir(be, &[entry(be, 0x8825, 4, 1, u32b(be, 26))], 0);
    body.extend_from_slice(&dir(be, &[entry(be, 0x0001, 2, 0, [0; 4])], 0));
    let b = block(be, &body);
    assert_eq!(open_all(&b).err(), Some(ExifError::BadComponentCount));
}

/// A chain of `n` empty directories linked by next pointers.
fn chain(be: bool, n: usize) -> Vec<u8> {
    let mut body = Vec::new();
    for i in 0..n {
        let next = if i + 1 < n { 8 + 6 * (i as u32 + 1) } else { 0 };
        body.extend_from_slice(&dir(be, &[], next));
    }
    block(be, &body)
}

#[test]
fn nesting_ceiling_depth_four_accepted_five_rejected() {
    let four = open_all(&chain(true, 4)).unwrap();
    assert_eq!(four.directories.len(), 4);
    assert_eq!(open_all(&chain(true, 5)).err(), Some(ExifError::NestingExceeded));
    assert_eq!(open_all(&chain(false, 5)).err(), Some(ExifError::NestingExceeded));
}

#[test]
fn unknown_tag_gets_numeric_name_and_decoding_goes_on() {
    let be = false;
    let b = block(be, &dir(be, &[entry(be, 0x9999, 3, 1, short_value(be, 7)), entry(be, 0x0112, 3, 1, short_value(be, 3))], 0));
    let blk = open_all(&b).unwrap();
    assert_eq!(blk.entry_data_vector.len(), 2);
    assert_eq!(blk.entry_data_vector[0].name, "_39321");
    assert_eq!(blk.entry_data_vector[1].name, "Orientation");
    let tag = blk.get_exif_tag(0x9999);
    assert_eq!(tag.name, "_39321");
    assert_eq!(tag.enu, ExifTagId::UndefinedExifTag);
    assert_eq!(blk.get_gps_tag(0x0002).name, "GPSLatitude");
    assert_eq!(blk.get_num_field("Orientation").unwrap().num, 3);
}

/// A directory with a SHORT, an SSHORT, a LONG list and a RATIONAL, in one byte order.
fn mixed(be: bool) -> Vec<u8> {
    // IFD0 at rel 8 with 4 entries: 2 + 48 + 4 = 54 bytes, data at rel 62.
    let entries = vec![
        entry(be, 0x0112, 3, 1, short_value(be, 0x0102)),
        entry(be, 0x9204, 8, 1, short_value(be, 0xfffe)),
        entry(be, 0x0111, 4, 2, u32b(be, 62)),
        entry(be, 0x011a, 5, 1, u32b(be, 70)),
    ];
    let mut body = dir(be, &entries, 0);
    body.extend_from_slice(&u32b(be, 0x01020304));
    body.extend_from_slice(&u32b(be, 7));
    body.extend_from_slice(&u32b(be, 300));
    body.extend_from_slice(&u32b(be, 1));
    block(be, &body)
}

#[test]
fn both_byte_orders_decode_alike() {
    let mm = open_all(&mixed(true)).unwrap();
    let ii = open_all(&mixed(false)).unwrap();
    assert!(mm.motorola_order && !ii.motorola_order);
    assert_eq!(mm.entry_data_vector.len(), ii.entry_data_vector.len());
    for (a, b) in mm.entry_data_vector.iter().zip(ii.entry_data_vector.iter()) {
        assert_eq!(a.name, b.name);
        assert_eq!(a.offset, b.offset);
        assert_eq!(format!("{:?}", a.value), format!("{:?}", b.value));
    }
    assert!(matches!(mm.entry_data_vector[0].value.value, TagValue::UShort(0x0102)));
    assert!(matches!(mm.entry_data_vector[1].value.value, TagValue::SShort(-2)));
    match &ii.entry_data_vector[2].value.value {
        TagValue::ULongs(v) => assert_eq!(v, &vec![0x01020304, 7]),
        other => panic!("unexpected {:?}", other),
    }
    assert!(matches!(ii.entry_data_vector[3].value.value, TagValue::Rational(300, 1)));
    assert_eq!(mm.entry_data_vector[3].value.format, FMT::URATIONAL);
}

#[test]
fn long_byte_arrays_become_base64_in_the_document_only() {
    let be = true;
    let mut body = dir(be, &[entry(be, 0x927c, 1, 121, u32b(be, 26))], 0);
    body.extend_from_slice(&[0u8; 121]);
    let b = block(be, &body);
    let blk = open_all(&b).unwrap();
    assert!(matches!(blk.entry_data_vector[0].value.value, TagValue::LongData));
    let root = blk.directories.last().unwrap();
    match &root[0].value {
        DocValue::Field(r) => match &r.value {
            TagValue::Blob(s) => assert_eq!(s, &format!("{}==", "A".repeat(162))),
            other => panic!("unexpected {:?}", other),
        },
        other => panic!("unexpected {:?}", other),
    }
    assert_eq!(blk.lastexifrefd, 6 + 26 + 121);
}

#[test]
fn text_is_cut_at_nul_and_decoded_lossily() {
    let be = false;
    // Make: "Canon\0" (6 bytes) at rel 26; Model: 0xff 'A' inline.
    let mut body = dir(be, &[entry(be, 0x010f, 2, 6, u32b(be, 38)), entry(be, 0x0110, 2, 3, [0xff, b'A', 0, 0])], 0);
    body.extend_from_slice(b"Canon\0");
    let b = block(be, &body);
    let blk = open_all(&b).unwrap();
    assert_eq!(blk.make, "Canon");
    assert_eq!(blk.get_field("Make").unwrap(), "Canon");
    assert_eq!(blk.get_field("Model").unwrap(), "\u{fffd}A");
}

#[test]
fn thumbnail_is_recorded_and_shown_in_base64() {
    let be = true;
    // IFD0 at rel 8 with 2 entries: 2 + 24 + 4 = 30 bytes; thumbnail at rel 38.
    let mut body = dir(be, &[entry(be, 0x0201, 4, 1, u32b(be, 38)), entry(be, 0x0202, 4, 1, u32b(be, 3))], 0);
    body.extend_from_slice(&[1, 2, 3]);
    let b = block(be, &body);
    let blk = open_all(&b).unwrap();
    assert_eq!(blk.thumbnailoffset, 38);
    assert_eq!(blk.thumbnailsize, 3);
    assert_eq!(blk.dirwiththumbnailptrs, 14);
    let root = blk.directories.last().unwrap();
    let thumb = root.iter().find(|i| i.name == "Thumbnail").unwrap();
    assert!(matches!(&thumb.value, DocValue::Text(t) if t == "AQID"));
}

#[test]
fn sub_directories_nest_in_the_document() {
    let be = false;
    // IFD0 at rel 8: ExifOffset -> rel 26; Exif IFD: ExposureTime inline short.
    let mut body = dir(be, &[entry(be, 0x8769, 4, 1, u32b(be, 26))], 0);
    body.extend_from_slice(&dir(be, &[entry(be, 0x8822, 3, 1, short_value(be, 2))], 0));
    let b = block(be, &body);
    let blk = open_all(&b).unwrap();
    assert_eq!(blk.directories.len(), 2);
    let root = blk.directories.last().unwrap();
    assert_eq!(root[0].name, "ExifOffset");
    assert!(matches!(root[0].value, DocValue::Dir(0)));
    assert_eq!(blk.directories[0][0].name, "ExposureProgram");
    assert_eq!(blk.entry_data_vector.len(), 1);
}

#[test]
fn double_and_utf8_values_decode() {
    let be = true;
    // IFD0 at rel 8 with 2 entries: 30 bytes; double at rel 38.
    let mut body = dir(be, &[entry(be, 0x9206, 12, 1, u32b(be, 38)), entry(be, 0x010e, 129, 3, [b'h', b'i', 0, 0])], 0);
    body.extend_from_slice(&2.5f64.to_be_bytes());
    let blk = open_all(&block(be, &body)).unwrap();
    match blk.entry_data_vector[0].value.value {
        TagValue::Double(bits) => assert_eq!(f64::from_bits(bits), 2.5),
        ref other => panic!("unexpected {:?}", other),
    }
    assert_eq!(blk.get_field("ImageDescription").unwrap(), "hi");
}
