use vstd::prelude::*;
use crate::bytes::{read_u16, read_u32, u16_at, u32_at};
use crate::decode::{
    dirs_view, entries_view, items_view, process_exif_dir, walk_exif, DocItem, DocItemView, DocValue,
    DocValueView, ExifError, ExifTagEntry, WalkState, WalkView, MAX_NESTING, OFFSET_BASE,
};
use crate::external::{base64_encode, base64_of};
use crate::tags::{
    exif_tag_enu, exif_tag_name, gps_tag_enu, gps_tag_name, resolve_exif_tag, resolve_gps_tag,
    ExifTag, GpsTag,
};

verus! {

/// A decoded metadata block: the raw bytes (kept for later patches), what was
/// learned while walking its directories, the flat tag index and the nested
/// document.
pub struct ExifBlock {
    pub raw_exif: Vec<u8>,
    /// Declared length of the block; every recorded offset lies below it.
    pub raw_exif_length: usize,
    /// Big-endian (`MM`) when true, little-endian (`II`) otherwise.
    pub motorola_order: bool,
    /// Highest byte offset referenced by a directory or a value.
    pub lastexifrefd: usize,
    /// Start of the directory that held the thumbnail offset.
    pub dirwiththumbnailptrs: usize,
    pub make: String,
    pub thumbnailsize: u32,
    /// Thumbnail offset as stored, relative to `OFFSET_BASE`.
    pub thumbnailoffset: u32,
    /// Every decoded entry, in decode order.
    pub entry_data_vector: Vec<ExifTagEntry>,
    /// Directories of the nested document, each sub-directory before the
    /// directory that links it; the last one is the root.
    pub directories: Vec<Vec<DocItem>>,
}

/// Result of checking the header (signature, byte-order marker, version
/// marker, 32-bit offset of the first directory from `OFFSET_BASE`): the byte
/// order and that offset.
pub open spec fn header_check(s: Seq<u8>) -> Result<(bool, nat), ExifError> {
    if s.len() < 12 || !(s[0] == 0x45 && s[1] == 0x78 && s[2] == 0x69 && s[3] == 0x66 && s[4] == 0
        && s[5] == 0) {
        Err(ExifError::NoHeader)
    } else if !((s[6] == 0x4d && s[7] == 0x4d) || (s[6] == 0x49 && s[7] == 0x49)) {
        Err(ExifError::BadAlignment)
    } else if u16_at(s, 8, s[6] == 0x4d) != 0x2a {
        Err(ExifError::BadStart)
    } else if s.len() < 14 || u32_at(s, 10, s[6] == 0x4d) < 8 || u32_at(s, 10, s[6] == 0x4d) > 32000 {
        Err(ExifError::SuspiciousOffset)
    } else {
        Ok((s[6] == 0x4d, u32_at(s, 10, s[6] == 0x4d) as nat))
    }
}

pub open spec fn initial_walk() -> WalkView {
    WalkView {
        last_ref: 0,
        thumb_offset: 0,
        thumb_size: 0,
        thumb_dir: 0,
        make: Seq::empty(),
        entries: Seq::empty(),
        dirs: Seq::empty(),
    }
}

/// The outcome of walking a block's directories: its byte order, the state
/// gathered, and the root directory's items.
pub open spec fn decode_walk(s: Seq<u8>, length: nat) -> Result<(bool, WalkView, Seq<DocItemView>), ExifError> {
    match header_check(s) {
        Err(x) => Err(x),
        Ok((be, first)) => if length < 14 || length > s.len() {
            Err(ExifError::BadLength)
        } else {
            match walk_exif(s, be, length, (first + OFFSET_BASE) as nat, MAX_NESTING as nat, initial_walk()) {
                Err(x) => Err(x),
                Ok((st, items)) => Ok((be, st, items)),
            }
        },
    }
}

/// Whether the recorded thumbnail is present and lies within the declared length.
pub open spec fn thumbnail_fits(offset: nat, size: nat, length: nat) -> bool {
    size != 0 && offset != 0 && OFFSET_BASE + offset + size <= length
}

/// The root directory's items, followed by the synthesized base64
/// thumbnail (when it fits) and the declared length.
pub open spec fn root_items(s: Seq<u8>, length: nat, st: WalkView, items: Seq<DocItemView>) -> Seq<DocItemView> {
    let start = OFFSET_BASE + st.thumb_offset;
    let with_thumb = if thumbnail_fits(st.thumb_offset, st.thumb_size, length) {
        items.push(
            DocItemView {
                name: "Thumbnail"@,
                value: DocValueView::Text(base64_of(s.subrange(start, start + st.thumb_size))),
            },
        )
    } else {
        items
    };
    with_thumb.push(DocItemView { name: "Exiflength"@, value: DocValueView::Number(length) })
}

/// What a successful decode of `s` with declared length `length` yields.
pub open spec fn decoded_block(blk: ExifBlock, s: Seq<u8>, length: nat, be: bool, st: WalkView, items: Seq<DocItemView>) -> bool {
    &&& blk.raw_exif@ == s
    &&& blk.raw_exif_length == length
    &&& blk.motorola_order == be
    &&& blk.lastexifrefd == st.last_ref
    &&& blk.dirwiththumbnailptrs == st.thumb_dir
    &&& blk.make@ == st.make
    &&& blk.thumbnailsize == st.thumb_size
    &&& blk.thumbnailoffset == st.thumb_offset
    &&& entries_view(blk.entry_data_vector@) == st.entries
    &&& dirs_view(blk.directories@) == st.dirs.push(root_items(s, length, st, items))
}

fn check_header(s: &[u8]) -> (r: Result<(bool, usize), ExifError>)
    ensures
        match header_check(s@) {
            Err(x) => r == Err::<(bool, usize), ExifError>(x),
            Ok((be, first)) => r == Ok::<(bool, usize), ExifError>((be, first as usize)),
        },
{
    if s.len() < 12 || !(s[0] == 0x45 && s[1] == 0x78 && s[2] == 0x69 && s[3] == 0x66 && s[4] == 0
        && s[5] == 0) {
        return Err(ExifError::NoHeader);
    }
    if !((s[6] == 0x4d && s[7] == 0x4d) || (s[6] == 0x49 && s[7] == 0x49)) {
        return Err(ExifError::BadAlignment);
    }
    let be = s[6] == 0x4d;
    if read_u16(s, 8, be) != 0x2a {
        return Err(ExifError::BadStart);
    }
    if s.len() < 14 {
        return Err(ExifError::SuspiciousOffset);
    }
    let first = read_u32(s, 10, be);
    if first < 8 || first > 32000 {
        return Err(ExifError::SuspiciousOffset);
    }
    Ok((be, first as usize))
}

impl ExifBlock {
    /// Decodes the metadata block `exifsection`, whose declared length is
    /// `length`: the signature, the byte-order and version markers, then every
    /// directory reachable from the first one. Any structural fault aborts the
    /// whole decode.
    pub fn open(exifsection: &[u8], length: usize) -> (r: Result<ExifBlock, ExifError>)
        ensures
            match decode_walk(exifsection@, length as nat) {
                Err(x) => r == Err::<ExifBlock, ExifError>(x),
                Ok((be, st, items)) => r matches Ok(blk) && decoded_block(
                    blk,
                    exifsection@,
                    length as nat,
                    be,
                    st,
                    items,
                ),
            },
    {
        let (be, first) = match check_header(exifsection) {
            Err(x) => return Err(x),
            Ok(h) => h,
        };
        if length < 14 || length > exifsection.len() {
            return Err(ExifError::BadLength);
        }
        let mut st = WalkState {
            last_ref: 0,
            thumb_offset: 0,
            thumb_size: 0,
            thumb_dir: 0,
            make: String::new(),
            entries: Vec::new(),
            dirs: Vec::new(),
        };
        assert(st@ == initial_walk()) by {
            assert(entries_view(st.entries@) =~= Seq::<crate::decode::EntryView>::empty());
            assert(dirs_view(st.dirs@) =~= Seq::<Seq<DocItemView>>::empty());
        }
        let mut items = match process_exif_dir(exifsection, be, length, first + OFFSET_BASE, MAX_NESTING, &mut st) {
            Err(x) => return Err(x),
            Ok(items) => items,
        };
        let ghost root0 = items@;
        let ghost walked = st@;
        if st.thumb_size != 0 && st.thumb_offset != 0 && st.thumb_offset as u64 + st.thumb_size as u64
            <= (length - OFFSET_BASE) as u64 {
            let start = OFFSET_BASE + st.thumb_offset as usize;
            let raw = vstd::slice::slice_subrange(exifsection, start, start + st.thumb_size as usize);
            items.push(DocItem { name: String::from_str("Thumbnail"), value: DocValue::Text(base64_encode(raw)) });
        }
        items.push(DocItem { name: String::from_str("Exiflength"), value: DocValue::Number(length) });
        let ghost old_dirs = st.dirs@;
        st.dirs.push(items);
        proof {
            let ri = root_items(exifsection@, length as nat, walked, items_view(root0));
            assert(items_view(st.dirs@.last()@) =~= ri);
            assert(dirs_view(st.dirs@) =~= dirs_view(old_dirs).push(ri));
        }
        Ok(ExifBlock {
            raw_exif: vstd::slice::slice_to_vec(exifsection),
            raw_exif_length: length,
            motorola_order: be,
            lastexifrefd: st.last_ref,
            dirwiththumbnailptrs: st.thumb_dir,
            make: st.make,
            thumbnailsize: st.thumb_size,
            thumbnailoffset: st.thumb_offset,
            entry_data_vector: st.entries,
            directories: st.dirs,
        })
    }

    /// Resolves a primary or Exif tag id.
    pub fn get_exif_tag(&self, id: u16) -> (r: ExifTag)
        ensures
            r.id == id,
            r.enu == exif_tag_enu(id),
            r.name@ == exif_tag_name(id),
    {
        resolve_exif_tag(id)
    }

    /// Resolves a GPS tag id.
    pub fn get_gps_tag(&self, id: u16) -> (r: GpsTag)
        ensures
            r.id == id,
            r.enu == gps_tag_enu(id),
            r.name@ == gps_tag_name(id),
    {
        resolve_gps_tag(id)
    }
}

} // verus!
