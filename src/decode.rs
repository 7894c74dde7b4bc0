use vstd::prelude::*;
use crate::bytes::{read_u16, read_u32, signed16, signed32, signed8, u16_at, u32_at};
use crate::tags::{
    bytes_per_format, exif_tag_enu, exif_tag_name, format_of, format_width, gps_tag_name,
    resolve_exif_tag, resolve_gps_tag, ExifTagId, FMT,
};
use crate::value::{
    copy_value, decode_value, decoded_value, is_text_format, lemma_text_iff_text_format, TagValue,
    ValueView,
};

verus! {

/// Byte position from which every offset inside the block is measured: the
/// start of the TIFF header, right after the six-byte signature.
pub const OFFSET_BASE: usize = 6;

/// How many directory levels may be open at once, the first one included.
pub const MAX_NESTING: usize = 4;

/// Why a metadata block could not be decoded.
#[derive(Debug, PartialEq, Eq, Structural, Clone, Copy)]
pub enum ExifError {
    /// The block does not start with the six-byte signature.
    NoHeader,
    /// The byte-order marker is neither `MM` nor `II`.
    BadAlignment,
    /// The format-version marker is not 0x2a.
    BadStart,
    /// The first directory offset lies outside 8..=32000.
    SuspiciousOffset,
    /// The declared length is below the header's 14 bytes or beyond the bytes given.
    BadLength,
    /// Directories are nested or chained deeper than allowed.
    NestingExceeded,
    /// A directory's entry table does not fit in the block.
    IllegalDirectorySize,
    /// An entry has an unknown numeric format.
    IllegalFormat,
    /// An entry's value lies outside the block.
    IllegalValuePointer,
    /// A sub-directory pointer lies outside the block.
    IllegalDirectoryLink,
    /// A GPS entry's component count is outside 1..=32768.
    BadComponentCount,
}

/// Format, component count and value of one directory entry.
#[derive(Debug, Clone)]
pub struct TagRecord {
    pub format: FMT,
    pub count: u32,
    pub value: TagValue,
}

pub struct RecordView {
    pub format: FMT,
    pub count: u32,
    pub value: ValueView,
}

impl View for TagRecord {
    type V = RecordView;

    open spec fn view(&self) -> RecordView {
        RecordView { format: self.format, count: self.count, value: self.value@ }
    }
}

/// One row of the flat tag index: the tag's name, its record, and the byte
/// offset of its value in the block.
#[derive(Debug, Clone)]
pub struct ExifTagEntry {
    pub name: String,
    pub value: TagRecord,
    pub offset: usize,
}

pub struct EntryView {
    pub name: Seq<char>,
    pub value: RecordView,
    pub offset: nat,
}

impl View for ExifTagEntry {
    type V = EntryView;

    open spec fn view(&self) -> EntryView {
        EntryView { name: self.name@, value: self.value@, offset: self.offset as nat }
    }
}

/// A value in the nested document.
#[derive(Debug, Clone)]
pub enum DocValue {
    Field(TagRecord),
    /// A sub-directory, by its index in the document's directory list.
    Dir(usize),
    Text(String),
    Number(usize),
}

pub enum DocValueView {
    Field(RecordView),
    Dir(nat),
    Text(Seq<char>),
    Number(nat),
}

/// A named item of a directory in the nested document.
#[derive(Debug, Clone)]
pub struct DocItem {
    pub name: String,
    pub value: DocValue,
}

pub struct DocItemView {
    pub name: Seq<char>,
    pub value: DocValueView,
}

impl View for DocItem {
    type V = DocItemView;

    open spec fn view(&self) -> DocItemView {
        DocItemView {
            name: self.name@,
            value: match &self.value {
                DocValue::Field(r) => DocValueView::Field(r@),
                DocValue::Dir(i) => DocValueView::Dir(*i as nat),
                DocValue::Text(t) => DocValueView::Text(t@),
                DocValue::Number(n) => DocValueView::Number(*n as nat),
            },
        }
    }
}

pub open spec fn items_view(v: Seq<DocItem>) -> Seq<DocItemView> {
    v.map_values(|x: DocItem| x@)
}

pub open spec fn dirs_view(v: Seq<Vec<DocItem>>) -> Seq<Seq<DocItemView>> {
    v.map_values(|d: Vec<DocItem>| items_view(d@))
}

pub open spec fn entries_view(v: Seq<ExifTagEntry>) -> Seq<EntryView> {
    v.map_values(|e: ExifTagEntry| e@)
}

/// What a decode has gathered so far, threaded through every directory.
pub struct WalkState {
    /// Highest byte offset referenced by a directory or a value.
    pub last_ref: usize,
    pub thumb_offset: u32,
    pub thumb_size: u32,
    /// Start of the directory that held the thumbnail offset.
    pub thumb_dir: usize,
    pub make: String,
    pub entries: Vec<ExifTagEntry>,
    /// Finished sub-directories of the nested document, children first.
    pub dirs: Vec<Vec<DocItem>>,
}

pub struct WalkView {
    pub last_ref: nat,
    pub thumb_offset: nat,
    pub thumb_size: nat,
    pub thumb_dir: nat,
    pub make: Seq<char>,
    pub entries: Seq<EntryView>,
    pub dirs: Seq<Seq<DocItemView>>,
}

impl View for WalkState {
    type V = WalkView;

    open spec fn view(&self) -> WalkView {
        WalkView {
            last_ref: self.last_ref as nat,
            thumb_offset: self.thumb_offset as nat,
            thumb_size: self.thumb_size as nat,
            thumb_dir: self.thumb_dir as nat,
            make: self.make@,
            entries: entries_view(self.entries@),
            dirs: dirs_view(self.dirs@),
        }
    }
}

/// Byte offset of entry `i` of the directory starting at `d`.
pub open spec fn entry_at(d: int, i: int) -> int {
    d + 2 + 12 * i
}

/// Where the `n` value bytes of the entry at `e` lie: inline in the entry when
/// they fit in four bytes, else at the offset the entry holds; `None` when
/// that offset runs past the block's declared end.
pub open spec fn value_location(b: Seq<u8>, be: bool, end: nat, e: int, n: nat) -> Option<int> {
    if n > 4 {
        let off = u32_at(b, e + 8, be) as int;
        if off + n > end - OFFSET_BASE {
            None
        } else {
            Some(OFFSET_BASE + off)
        }
    } else {
        Some(e + 8)
    }
}

/// The integer a thumbnail offset or length entry holds; negative or
/// non-integer values count as zero.
pub open spec fn thumb_number(b: Seq<u8>, be: bool, f: FMT, p: int) -> nat {
    match f {
        FMT::BYTE => b[p] as nat,
        FMT::SBYTE => if signed8(b[p]) < 0 { 0 } else { b[p] as nat },
        FMT::USHORT => u16_at(b, p, be) as nat,
        FMT::SSHORT => if signed16(u16_at(b, p, be)) < 0 { 0 } else { u16_at(b, p, be) as nat },
        FMT::ULONG => u32_at(b, p, be) as nat,
        FMT::SLONG => if signed32(u32_at(b, p, be)) < 0 { 0 } else { u32_at(b, p, be) as nat },
        _ => 0,
    }
}

/// The tags whose value points to a sub-directory.
pub open spec fn is_pointer_tag(t: ExifTagId) -> bool {
    t == ExifTagId::GPSInfo || t == ExifTagId::EXIF_OFFSET || t == ExifTagId::INTEROP_OFFSET
}

/// `st` with the highest referenced offset raised to `x` if it is higher.
pub open spec fn with_last_ref(st: WalkView, x: int) -> WalkView {
    if x > st.last_ref {
        WalkView { last_ref: x as nat, ..st }
    } else {
        st
    }
}

/// Records a decoded leaf entry in the flat index (with a placeholder when
/// the value is too large to keep there) and in the directory's items.
pub open spec fn add_leaf(
    st: WalkView,
    items: Seq<DocItemView>,
    name: Seq<char>,
    f: FMT,
    count: u32,
    v: ValueView,
    keep: bool,
    p: int,
) -> (WalkView, Seq<DocItemView>) {
    let kept = if keep { v } else { ValueView::LongData };
    (
        WalkView {
            entries: st.entries.push(
                EntryView { name, value: RecordView { format: f, count, value: kept }, offset: p as nat },
            ),
            ..st
        },
        items.push(DocItemView { name, value: DocValueView::Field(RecordView { format: f, count, value: v }) }),
    )
}

/// Appends a finished sub-directory and links it from the parent's items under `name`.
pub open spec fn add_subdir(
    st: WalkView,
    items: Seq<DocItemView>,
    name: Seq<char>,
    sub: Seq<DocItemView>,
) -> (WalkView, Seq<DocItemView>) {
    (
        WalkView { dirs: st.dirs.push(sub), ..st },
        items.push(DocItemView { name, value: DocValueView::Dir(st.dirs.len()) }),
    )
}

/// Follows the sub-directory pointer stored at `p` of the entry named
/// `name`, decoding the GPS or primary/Exif directory it leads to.
pub open spec fn exif_pointer_step(
    b: Seq<u8>,
    be: bool,
    end: nat,
    enu: ExifTagId,
    name: Seq<char>,
    p: int,
    child: nat,
    st: WalkView,
    items: Seq<DocItemView>,
) -> Result<(WalkView, Seq<DocItemView>), ExifError>
    decreases child + 1, 0nat, 0nat,
{
    let sub = OFFSET_BASE + u32_at(b, p, be);
    if sub > end {
        Err(ExifError::IllegalDirectoryLink)
    } else {
        let r = if enu == ExifTagId::GPSInfo {
            walk_gps(b, be, end, sub as nat, child, st)
        } else {
            walk_exif(b, be, end, sub as nat, child, st)
        };
        match r {
            Err(x) => Err(x),
            Ok((st2, sub_items)) => Ok(add_subdir(st2, items, name, sub_items)),
        }
    }
}

/// Records a leaf entry of the primary/Exif directory at `d`, noting the
/// thumbnail pointers and the camera make on the way.
#[verifier::opaque]
pub open spec fn exif_leaf_step(
    b: Seq<u8>,
    be: bool,
    d: nat,
    enu: ExifTagId,
    name: Seq<char>,
    f: FMT,
    count: u32,
    p: int,
    st: WalkView,
    items: Seq<DocItemView>,
) -> (WalkView, Seq<DocItemView>) {
    let st2 = if enu == ExifTagId::ThumbnailOffset {
        WalkView { thumb_offset: thumb_number(b, be, f, p), thumb_dir: d, ..st }
    } else if enu == ExifTagId::ThumbnailLength {
        WalkView { thumb_size: thumb_number(b, be, f, p), ..st }
    } else {
        st
    };
    let (v, keep) = decoded_value(b, be, f, p, count as nat);
    let st3 = if enu == ExifTagId::Make && is_text_format(f) {
        WalkView { make: v->Text_0, ..st2 }
    } else {
        st2
    };
    add_leaf(st3, items, name, f, count, v, keep, p)
}

/// Decodes entry `i` of the primary/Exif directory at `d`; sub-directories
/// get the nesting budget `child`.
pub open spec fn exif_step(
    b: Seq<u8>,
    be: bool,
    end: nat,
    d: nat,
    i: nat,
    child: nat,
    st: WalkView,
    items: Seq<DocItemView>,
) -> Result<(WalkView, Seq<DocItemView>), ExifError>
    decreases child + 1, 0nat, 1nat,
{
    let e = entry_at(d as int, i as int);
    let id = u16_at(b, e, be);
    let f = format_of(u16_at(b, e + 2, be));
    let count = u32_at(b, e + 4, be);
    let n = (count * format_width(f)) as nat;
    if f == FMT::NUM_FORMATS {
        Err(ExifError::IllegalFormat)
    } else {
        match value_location(b, be, end, e, n) {
            None => Err(ExifError::IllegalValuePointer),
            Some(p) => {
                let st1 = with_last_ref(st, p + n);
                if is_pointer_tag(exif_tag_enu(id)) {
                    exif_pointer_step(b, be, end, exif_tag_enu(id), exif_tag_name(id), p, child, st1, items)
                } else {
                    Ok(exif_leaf_step(b, be, d, exif_tag_enu(id), exif_tag_name(id), f, count, p, st1, items))
                }
            },
        }
    }
}

/// Decodes entries `0..i` of the primary/Exif directory at `d`, in order.
pub open spec fn exif_entries(
    b: Seq<u8>,
    be: bool,
    end: nat,
    d: nat,
    i: nat,
    child: nat,
    st: WalkView,
) -> Result<(WalkView, Seq<DocItemView>), ExifError>
    decreases child + 1, 1nat, i,
{
    if i == 0 {
        Ok((st, Seq::empty()))
    } else {
        match exif_entries(b, be, end, d, (i - 1) as nat, child, st) {
            Err(x) => Err(x),
            Ok((s, it)) => exif_step(b, be, end, d, (i - 1) as nat, child, s, it),
        }
    }
}

/// Decodes the primary/Exif directory at `d` with `budget` nesting levels
/// left: its entries, then the directory chained after it, if any. Gives
/// the state after it and the directory's own items.
pub open spec fn walk_exif(
    b: Seq<u8>,
    be: bool,
    end: nat,
    d: nat,
    budget: nat,
    st: WalkView,
) -> Result<(WalkView, Seq<DocItemView>), ExifError>
    decreases budget, 2nat, 0nat,
{
    if budget == 0 {
        Err(ExifError::NestingExceeded)
    } else if d + 2 > end {
        Err(ExifError::IllegalDirectorySize)
    } else {
        let cnt = u16_at(b, d as int, be) as nat;
        let dend = entry_at(d as int, cnt as int);
        if dend + 4 > end && dend + 2 != end && dend != end {
            Err(ExifError::IllegalDirectorySize)
        } else {
            match exif_entries(b, be, end, d, cnt, (budget - 1) as nat, with_last_ref(st, dend)) {
                Err(x) => Err(x),
                Ok((st2, items)) => {
                    if dend + 4 <= end && u32_at(b, dend, be) != 0 && OFFSET_BASE + u32_at(b, dend, be) <= end {
                        match walk_exif(b, be, end, (OFFSET_BASE + u32_at(b, dend, be)) as nat, (budget - 1) as nat, st2) {
                            Err(x) => Err(x),
                            Ok((st3, next)) => Ok(add_subdir(st3, items, "ExtraExifDir"@, next)),
                        }
                    } else {
                        Ok((st2, items))
                    }
                },
            }
        }
    }
}

/// Decodes entry `i` of the GPS directory at `d`.
pub open spec fn gps_step(
    b: Seq<u8>,
    be: bool,
    end: nat,
    d: nat,
    i: nat,
    st: WalkView,
    items: Seq<DocItemView>,
) -> Result<(WalkView, Seq<DocItemView>), ExifError> {
    let e = entry_at(d as int, i as int);
    let id = u16_at(b, e, be);
    let f = format_of(u16_at(b, e + 2, be));
    let count = u32_at(b, e + 4, be);
    let n = (count * format_width(f)) as nat;
    if f == FMT::NUM_FORMATS {
        Err(ExifError::IllegalFormat)
    } else if count < 1 || count > 32768 {
        Err(ExifError::BadComponentCount)
    } else {
        match value_location(b, be, end, e, n) {
            None => Err(ExifError::IllegalValuePointer),
            Some(p) => {
                let (v, keep) = decoded_value(b, be, f, p, count as nat);
                Ok(add_leaf(with_last_ref(st, p + n), items, gps_tag_name(id), f, count, v, keep, p))
            },
        }
    }
}

/// Decodes entries `0..i` of the GPS directory at `d`, in order.
pub open spec fn gps_entries(
    b: Seq<u8>,
    be: bool,
    end: nat,
    d: nat,
    i: nat,
    st: WalkView,
) -> Result<(WalkView, Seq<DocItemView>), ExifError>
    decreases i,
{
    if i == 0 {
        Ok((st, Seq::empty()))
    } else {
        match gps_entries(b, be, end, d, (i - 1) as nat, st) {
            Err(x) => Err(x),
            Ok((s, it)) => gps_step(b, be, end, d, (i - 1) as nat, s, it),
        }
    }
}

/// Decodes the GPS directory at `d` with `budget` nesting levels left.
pub open spec fn walk_gps(
    b: Seq<u8>,
    be: bool,
    end: nat,
    d: nat,
    budget: nat,
    st: WalkView,
) -> Result<(WalkView, Seq<DocItemView>), ExifError> {
    if budget == 0 {
        Err(ExifError::NestingExceeded)
    } else if d + 2 > end {
        Err(ExifError::IllegalDirectorySize)
    } else {
        let cnt = u16_at(b, d as int, be) as nat;
        if entry_at(d as int, cnt as int) > end {
            Err(ExifError::IllegalDirectorySize)
        } else {
            gps_entries(b, be, end, d, cnt, st)
        }
    }
}

fn locate_value(b: &[u8], be: bool, end: usize, e: usize, n: u64) -> (r: Option<usize>)
    requires
        end <= b@.len(),
        OFFSET_BASE <= end,
        e + 12 <= end,
        n <= 0xffff_ffff * 8,
    ensures
        match value_location(b@, be, end as nat, e as int, n as nat) {
            None => r is None,
            Some(p) => r == Some(p as usize) && p + n <= end,
        },
{
    if n > 4 {
        let off = read_u32(b, e + 8, be) as u64;
        if off + n > (end - OFFSET_BASE) as u64 {
            None
        } else {
            Some(OFFSET_BASE + off as usize)
        }
    } else {
        Some(e + 8)
    }
}

fn read_thumb_number(b: &[u8], be: bool, f: FMT, p: usize) -> (r: u32)
    requires
        p + 4 <= b@.len(),
    ensures
        r == thumb_number(b@, be, f, p as int),
{
    match f {
        FMT::BYTE => b[p] as u32,
        FMT::SBYTE => if b[p] >= 0x80 { 0 } else { b[p] as u32 },
        FMT::USHORT => read_u16(b, p, be) as u32,
        FMT::SSHORT => {
            let v = read_u16(b, p, be);
            if v >= 0x8000 { 0 } else { v as u32 }
        },
        FMT::ULONG => read_u32(b, p, be),
        FMT::SLONG => {
            let v = read_u32(b, p, be);
            if v >= 0x8000_0000 { 0 } else { v }
        },
        _ => 0,
    }
}

fn push_leaf(
    st: &mut WalkState,
    items: &mut Vec<DocItem>,
    name: String,
    f: FMT,
    count: u32,
    v: TagValue,
    keep: bool,
    p: usize,
)
    ensures
        (final(st)@, items_view(final(items)@)) == add_leaf(
            old(st)@,
            items_view(old(items)@),
            name@,
            f,
            count,
            v@,
            keep,
            p as int,
        ),
{
    let kept = if keep { copy_value(&v) } else { TagValue::LongData };
    let ghost old_entries = st.entries@;
    let ghost old_items = items@;
    st.entries.push(ExifTagEntry { name: name.clone(), value: TagRecord { format: f, count, value: kept }, offset: p });
    items.push(DocItem { name, value: DocValue::Field(TagRecord { format: f, count, value: v }) });
    assert(entries_view(st.entries@) =~= entries_view(old_entries).push(st.entries@.last()@));
    assert(items_view(items@) =~= items_view(old_items).push(items@.last()@));
}

fn link_subdir(st: &mut WalkState, items: &mut Vec<DocItem>, name: String, sub: Vec<DocItem>)
    ensures
        (final(st)@, items_view(final(items)@)) == add_subdir(
            old(st)@,
            items_view(old(items)@),
            name@,
            items_view(sub@),
        ),
{
    let idx = st.dirs.len();
    let ghost old_dirs = st.dirs@;
    let ghost old_items = items@;
    st.dirs.push(sub);
    items.push(DocItem { name, value: DocValue::Dir(idx) });
    assert(dirs_view(st.dirs@) =~= dirs_view(old_dirs).push(items_view(sub@)));
    assert(items_view(items@) =~= items_view(old_items).push(items@.last()@));
}

fn raise_last_ref(st: &mut WalkState, x: usize)
    ensures
        final(st)@ == with_last_ref(old(st)@, x as int),
{
    if x > st.last_ref {
        st.last_ref = x;
    }
}

fn exif_pointer_entry(
    b: &[u8],
    be: bool,
    end: usize,
    enu: ExifTagId,
    name: String,
    p: usize,
    child: usize,
    st: &mut WalkState,
    items: &mut Vec<DocItem>,
) -> (r: Result<(), ExifError>)
    requires
        end <= b@.len(),
        OFFSET_BASE <= end,
        p + 4 <= end,
    ensures
        match exif_pointer_step(b@, be, end as nat, enu, name@, p as int, child as nat, old(st)@, items_view(old(items)@)) {
            Ok((s, it)) => r is Ok && final(st)@ == s && items_view(final(items)@) == it,
            Err(x) => r == Err::<(), ExifError>(x),
        },
    decreases child + 1, 0nat, 0nat,
{
    let sub = OFFSET_BASE as u64 + read_u32(b, p, be) as u64;
    if sub > end as u64 {
        return Err(ExifError::IllegalDirectoryLink);
    }
    let res = if enu == ExifTagId::GPSInfo {
        process_gps_info(b, be, end, sub as usize, child, st)
    } else {
        process_exif_dir(b, be, end, sub as usize, child, st)
    };
    match res {
        Err(x) => Err(x),
        Ok(sub_items) => {
            link_subdir(st, items, name, sub_items);
            Ok(())
        },
    }
}

fn exif_leaf_entry(
    b: &[u8],
    be: bool,
    d: usize,
    enu: ExifTagId,
    name: String,
    f: FMT,
    count: u32,
    p: usize,
    st: &mut WalkState,
    items: &mut Vec<DocItem>,
)
    requires
        f != FMT::NUM_FORMATS,
        p + 4 <= b@.len(),
        p + count * format_width(f) <= b@.len(),
    ensures
        (final(st)@, items_view(final(items)@)) == exif_leaf_step(
            b@,
            be,
            d as nat,
            enu,
            name@,
            f,
            count,
            p as int,
            old(st)@,
            items_view(old(items)@),
        ),
{
    reveal(exif_leaf_step);
    if enu == ExifTagId::ThumbnailOffset {
        st.thumb_offset = read_thumb_number(b, be, f, p);
        st.thumb_dir = d;
    } else if enu == ExifTagId::ThumbnailLength {
        st.thumb_size = read_thumb_number(b, be, f, p);
    }
    let (v, keep) = decode_value(b, be, f, p, count);
    proof {
        lemma_text_iff_text_format(b@, be, f, p as int, count as nat);
    }
    if enu == ExifTagId::Make {
        match &v {
            TagValue::Text(t) => {
                st.make = t.clone();
            },
            _ => {},
        }
    }
    push_leaf(st, items, name, f, count, v, keep, p);
}

fn exif_entry(
    b: &[u8],
    be: bool,
    end: usize,
    d: usize,
    i: usize,
    child: usize,
    st: &mut WalkState,
    items: &mut Vec<DocItem>,
) -> (r: Result<(), ExifError>)
    requires
        end <= b@.len(),
        OFFSET_BASE <= end,
        entry_at(d as int, i as int) + 12 <= end,
    ensures
        match exif_step(b@, be, end as nat, d as nat, i as nat, child as nat, old(st)@, items_view(old(items)@)) {
            Ok((s, it)) => r is Ok && final(st)@ == s && items_view(final(items)@) == it,
            Err(x) => r == Err::<(), ExifError>(x),
        },
    decreases child + 1, 0nat, 1nat,
{
    let e = d + 2 + 12 * i;
    let id = read_u16(b, e, be);
    let f = FMT::from(read_u16(b, e + 2, be));
    if f == FMT::NUM_FORMATS {
        return Err(ExifError::IllegalFormat);
    }
    let count = read_u32(b, e + 4, be);
    let w = bytes_per_format(f) as u64;
    proof {
        assert(count as u64 * w <= 0xffff_ffff * 8) by (nonlinear_arith)
            requires
                count <= 0xffff_ffff,
                w <= 8,
        ;
    }
    let n = count as u64 * w;
    let p = match locate_value(b, be, end, e, n) {
        None => return Err(ExifError::IllegalValuePointer),
        Some(p) => p,
    };
    raise_last_ref(st, p + n as usize);
    let tag = resolve_exif_tag(id);
    if tag.enu == ExifTagId::GPSInfo || tag.enu == ExifTagId::EXIF_OFFSET || tag.enu
        == ExifTagId::INTEROP_OFFSET {
        exif_pointer_entry(b, be, end, tag.enu, tag.name, p, child, st, items)
    } else {
        exif_leaf_entry(b, be, d, tag.enu, tag.name, f, count, p, st, items);
        Ok(())
    }
}

proof fn lemma_exif_entries_error_stays(
    b: Seq<u8>,
    be: bool,
    end: nat,
    d: nat,
    k: nat,
    m: nat,
    child: nat,
    st: WalkView,
)
    requires
        k <= m,
        exif_entries(b, be, end, d, k, child, st) is Err,
    ensures
        exif_entries(b, be, end, d, m, child, st) == exif_entries(b, be, end, d, k, child, st),
    decreases m - k,
{
    if k < m {
        lemma_exif_entries_error_stays(b, be, end, d, k, (m - 1) as nat, child, st);
    }
}

/// Decodes the primary/Exif directory at `d` and everything below it.
pub(crate) fn process_exif_dir(b: &[u8], be: bool, end: usize, d: usize, budget: usize, st: &mut WalkState) -> (r: Result<
    Vec<DocItem>,
    ExifError,
>)
    requires
        end <= b@.len(),
        OFFSET_BASE <= end,
    ensures
        match walk_exif(b@, be, end as nat, d as nat, budget as nat, old(st)@) {
            Ok((s, it)) => r matches Ok(v) && final(st)@ == s && items_view(v@) == it,
            Err(x) => r == Err::<Vec<DocItem>, ExifError>(x),
        },
    decreases budget, 2nat, 0nat,
{
    if budget == 0 {
        return Err(ExifError::NestingExceeded);
    }
    if d > end - 2 {
        return Err(ExifError::IllegalDirectorySize);
    }
    let cnt = read_u16(b, d, be) as usize;
    let room = end - d - 2;
    let span = 12 * cnt;
    if span + 4 > room && span + 2 != room && span != room {
        return Err(ExifError::IllegalDirectorySize);
    }
    let dend = d + 2 + span;
    raise_last_ref(st, dend);
    let child = budget - 1;
    let ghost st1 = st@;
    let mut items: Vec<DocItem> = Vec::new();
    assert(items_view(items@) =~= Seq::<DocItemView>::empty());
    let mut i: usize = 0;
    while i < cnt
        invariant
            end <= b@.len(),
            OFFSET_BASE <= end,
            budget > 0,
            child == budget - 1,
            d + 2 <= end,
            !(dend + 4 > end && dend + 2 != end && dend != end),
            st1 == with_last_ref(old(st)@, dend as int),
            i <= cnt,
            dend == entry_at(d as int, cnt as int),
            dend <= end,
            cnt == u16_at(b@, d as int, be),
            exif_entries(b@, be, end as nat, d as nat, i as nat, child as nat, st1) == Ok::<
                (WalkView, Seq<DocItemView>),
                ExifError,
            >((st@, items_view(items@))),
        decreases cnt - i,
    {
        let res = exif_entry(b, be, end, d, i, child, st, &mut items);
        match res {
            Err(x) => {
                proof {
                    assert(exif_entries(b@, be, end as nat, d as nat, (i + 1) as nat, child as nat, st1) == Err::<
                        (WalkView, Seq<DocItemView>),
                        ExifError,
                    >(x));
                    lemma_exif_entries_error_stays(b@, be, end as nat, d as nat, (i + 1) as nat, cnt as nat, child as nat, st1);
                }
                return Err(x);
            },
            Ok(()) => {},
        }
        i += 1;
    }
    if dend <= end - 4 {
        let next = read_u32(b, dend, be);
        if next != 0 && OFFSET_BASE as u64 + next as u64 <= end as u64 {
            let res = process_exif_dir(b, be, end, OFFSET_BASE + next as usize, child, st);
            match res {
                Err(x) => return Err(x),
                Ok(next_items) => {
                    link_subdir(st, &mut items, String::from_str("ExtraExifDir"), next_items);
                },
            }
        }
    }
    Ok(items)
}

fn gps_entry(b: &[u8], be: bool, end: usize, d: usize, i: usize, st: &mut WalkState, items: &mut Vec<DocItem>) -> (r: Result<(), ExifError>)
    requires
        end <= b@.len(),
        OFFSET_BASE <= end,
        entry_at(d as int, i as int) + 12 <= end,
    ensures
        match gps_step(b@, be, end as nat, d as nat, i as nat, old(st)@, items_view(old(items)@)) {
            Ok((s, it)) => r is Ok && final(st)@ == s && items_view(final(items)@) == it,
            Err(x) => r == Err::<(), ExifError>(x),
        },
{
    let e = d + 2 + 12 * i;
    let id = read_u16(b, e, be);
    let f = FMT::from(read_u16(b, e + 2, be));
    if f == FMT::NUM_FORMATS {
        return Err(ExifError::IllegalFormat);
    }
    let count = read_u32(b, e + 4, be);
    if count < 1 || count > 32768 {
        return Err(ExifError::BadComponentCount);
    }
    let w = bytes_per_format(f) as u64;
    proof {
        assert(count as u64 * w <= 0xffff_ffff * 8) by (nonlinear_arith)
            requires
                count <= 0xffff_ffff,
                w <= 8,
        ;
    }
    let n = count as u64 * w;
    let p = match locate_value(b, be, end, e, n) {
        None => return Err(ExifError::IllegalValuePointer),
        Some(p) => p,
    };
    raise_last_ref(st, p + n as usize);
    let tag = resolve_gps_tag(id);
    let (v, keep) = decode_value(b, be, f, p, count);
    push_leaf(st, items, tag.name, f, count, v, keep, p);
    Ok(())
}

proof fn lemma_gps_entries_error_stays(b: Seq<u8>, be: bool, end: nat, d: nat, k: nat, m: nat, st: WalkView)
    requires
        k <= m,
        gps_entries(b, be, end, d, k, st) is Err,
    ensures
        gps_entries(b, be, end, d, m, st) == gps_entries(b, be, end, d, k, st),
    decreases m - k,
{
    if k < m {
        lemma_gps_entries_error_stays(b, be, end, d, k, (m - 1) as nat, st);
    }
}

/// Decodes the GPS directory at `d`.
fn process_gps_info(b: &[u8], be: bool, end: usize, d: usize, budget: usize, st: &mut WalkState) -> (r: Result<
    Vec<DocItem>,
    ExifError,
>)
    requires
        end <= b@.len(),
        OFFSET_BASE <= end,
    ensures
        match walk_gps(b@, be, end as nat, d as nat, budget as nat, old(st)@) {
            Ok((s, it)) => r matches Ok(v) && final(st)@ == s && items_view(v@) == it,
            Err(x) => r == Err::<Vec<DocItem>, ExifError>(x),
        },
{
    if budget == 0 {
        return Err(ExifError::NestingExceeded);
    }
    if d > end - 2 {
        return Err(ExifError::IllegalDirectorySize);
    }
    let cnt = read_u16(b, d, be) as usize;
    let room = end - d - 2;
    let span = 12 * cnt;
    if span > room {
        return Err(ExifError::IllegalDirectorySize);
    }
    let dend = d + 2 + span;
    let ghost st1 = st@;
    let mut items: Vec<DocItem> = Vec::new();
    assert(items_view(items@) =~= Seq::<DocItemView>::empty());
    let mut i: usize = 0;
    while i < cnt
        invariant
            end <= b@.len(),
            OFFSET_BASE <= end,
            budget > 0,
            d + 2 <= end,
            st1 == old(st)@,
            i <= cnt,
            dend == entry_at(d as int, cnt as int),
            dend <= end,
            cnt == u16_at(b@, d as int, be),
            gps_entries(b@, be, end as nat, d as nat, i as nat, st1) == Ok::<
                (WalkView, Seq<DocItemView>),
                ExifError,
            >((st@, items_view(items@))),
        decreases cnt - i,
    {
        let res = gps_entry(b, be, end, d, i, st, &mut items);
        match res {
            Err(x) => {
                proof {
                    assert(gps_entries(b@, be, end as nat, d as nat, (i + 1) as nat, st1) == Err::<
                        (WalkView, Seq<DocItemView>),
                        ExifError,
                    >(x));
                    lemma_gps_entries_error_stays(b@, be, end as nat, d as nat, (i + 1) as nat, cnt as nat, st1);
                }
                return Err(x);
            },
            Ok(()) => {},
        }
        i += 1;
    }
    Ok(items)
}

} // verus!
