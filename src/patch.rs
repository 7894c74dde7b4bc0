use vstd::prelude::*;
use crate::block::ExifBlock;
use vstd::utf8::encode_utf8;
use crate::bytes::{u16_bytes, u32_bytes, write_u16, write_u32};
use crate::external::local_timestamp;
use crate::decode::{entries_view, EntryView, OFFSET_BASE};
use crate::index::lookup_index;
use crate::tags::FMT;

verus! {

/// Scale of the fixed-point resolutions the patch writer takes: hundred-thousandths.
pub const RESOLUTION_SCALE: u64 = 100000;

/// The first entry named exactly `name`, if any.
pub open spec fn first_entry(es: Seq<EntryView>, name: Seq<char>) -> Option<EntryView> {
    match lookup_index(es, name, true, 0) {
        Some(j) => Some(es[j]),
        None => None,
    }
}

/// `b` with `bytes` written from position `p` on.
pub open spec fn splice(b: Seq<u8>, p: int, bytes: Seq<u8>) -> Seq<u8> {
    b.subrange(0, p) + bytes + b.subrange(p + bytes.len(), b.len() as int)
}

/// The rational that stands for a resolution of `e5` hundred-thousandths:
/// denominator 1 when it is a whole number, else 100000; a numerator that
/// does not fit in 32 bits saturates.
pub open spec fn resolution_rational(e5: u64) -> (u32, u32) {
    if e5 % RESOLUTION_SCALE == 0 && e5 / RESOLUTION_SCALE <= u32::MAX {
        ((e5 / RESOLUTION_SCALE) as u32, 1)
    } else if e5 <= u32::MAX {
        (e5 as u32, RESOLUTION_SCALE as u32)
    } else {
        (u32::MAX, RESOLUTION_SCALE as u32)
    }
}

/// `b` with the first entry named `name` set to `num / den`, when that entry
/// holds at least one unsigned rational that lies inside `b`; else `b`
/// unchanged.
pub open spec fn rational_patched(b: Seq<u8>, es: Seq<EntryView>, be: bool, name: Seq<char>, num: u32, den: u32) -> Seq<u8> {
    match first_entry(es, name) {
        Some(e) => if e.value.format == FMT::URATIONAL && e.value.count >= 1 && e.offset + 8 <= b.len() {
            splice(b, e.offset as int, u32_bytes(num, be) + u32_bytes(den, be))
        } else {
            b
        },
        None => b,
    }
}

/// `b` with the first entry named `name` set to `v`, when that entry holds
/// at least one 16-bit integer that lies inside `b`; else `b` unchanged.
pub open spec fn short_patched(b: Seq<u8>, es: Seq<EntryView>, be: bool, name: Seq<char>, v: u16) -> Seq<u8> {
    match first_entry(es, name) {
        Some(e) => if (e.value.format == FMT::USHORT || e.value.format == FMT::SSHORT) && e.value.count >= 1
            && e.offset + 2 <= b.len() {
            splice(b, e.offset as int, u16_bytes(v, be))
        } else {
            b
        },
        None => b,
    }
}

/// `b` with a pixel dimension set to `v` in the first entry named `primary`,
/// or `fallback` when there is none: as a 32-bit integer, or as a 16-bit one
/// when the entry holds those and `v` fits; else `b` unchanged.
pub open spec fn dimension_patched(b: Seq<u8>, es: Seq<EntryView>, be: bool, primary: Seq<char>, fallback: Seq<char>, v: u32) -> Seq<u8> {
    let target = if first_entry(es, primary) is Some { primary } else { fallback };
    match first_entry(es, target) {
        Some(e) => if (e.value.format == FMT::ULONG || e.value.format == FMT::SLONG) && e.value.count >= 1
            && e.offset + 4 <= b.len() {
            splice(b, e.offset as int, u32_bytes(v, be))
        } else if (e.value.format == FMT::USHORT || e.value.format == FMT::SSHORT) && e.value.count >= 1
            && v <= u16::MAX && e.offset + 2 <= b.len() {
            splice(b, e.offset as int, u16_bytes(v as u16, be))
        } else {
            b
        },
        None => b,
    }
}

/// `b` with `text` written over the value of the first entry named `name`,
/// when that entry is text whose byte budget holds it; else `b` unchanged.
pub open spec fn text_patched(b: Seq<u8>, es: Seq<EntryView>, name: Seq<char>, text: Seq<u8>) -> Seq<u8> {
    match first_entry(es, name) {
        Some(e) => if (e.value.format == FMT::STRING || e.value.format == FMT::UNDEFINED || e.value.format
            == FMT::UTF_8) && text.len() <= e.value.count && e.offset + text.len() <= b.len() {
            splice(b, e.offset as int, text)
        } else {
            b
        },
        None => b,
    }
}

/// Every field patch of a save, in order: resolutions, orientation reset to
/// normal, timestamp, pixel dimensions.
pub open spec fn fields_patched(
    b: Seq<u8>,
    es: Seq<EntryView>,
    be: bool,
    xres_e5: u64,
    yres_e5: u64,
    w: u32,
    h: u32,
    stamp: Seq<u8>,
) -> Seq<u8> {
    let (xn, xd) = resolution_rational(xres_e5);
    let (yn, yd) = resolution_rational(yres_e5);
    let b1 = rational_patched(b, es, be, "XResolution"@, xn, xd);
    let b2 = rational_patched(b1, es, be, "YResolution"@, yn, yd);
    let b3 = short_patched(b2, es, be, "Orientation"@, 1);
    let b4 = text_patched(b3, es, "DateTime"@, stamp);
    let b5 = dimension_patched(b4, es, be, "PixelXDimension"@, "ImageWidth"@, w);
    dimension_patched(b5, es, be, "PixelYDimension"@, "ImageLength"@, h)
}

/// The bytes of the block with the embedded thumbnail replaced by `t`, when
/// `t` has exactly the reserved length and the reserved bytes lie inside the
/// block; else unchanged.
pub open spec fn thumbnail_patched(b: Seq<u8>, offset: nat, size: nat, t: Seq<u8>) -> Seq<u8> {
    if size > 0 && OFFSET_BASE + offset + size <= b.len() && t.len() == size {
        splice(b, OFFSET_BASE + offset, t)
    } else {
        b
    }
}

/// The block unchanged but for its bytes.
pub open spec fn same_but_bytes(a: ExifBlock, b: ExifBlock) -> bool {
    &&& a.raw_exif_length == b.raw_exif_length
    &&& a.motorola_order == b.motorola_order
    &&& a.lastexifrefd == b.lastexifrefd
    &&& a.dirwiththumbnailptrs == b.dirwiththumbnailptrs
    &&& a.make == b.make
    &&& a.thumbnailsize == b.thumbnailsize
    &&& a.thumbnailoffset == b.thumbnailoffset
    &&& a.entry_data_vector == b.entry_data_vector
    &&& a.directories == b.directories
}

/// The rational for a resolution of `e5` hundred-thousandths.
pub fn resolution_to_rational(e5: u64) -> (r: (u32, u32))
    ensures
        r == resolution_rational(e5),
{
    if e5 % RESOLUTION_SCALE == 0 && e5 / RESOLUTION_SCALE <= u32::MAX as u64 {
        ((e5 / RESOLUTION_SCALE) as u32, 1)
    } else if e5 <= u32::MAX as u64 {
        (e5 as u32, RESOLUTION_SCALE as u32)
    } else {
        (u32::MAX, RESOLUTION_SCALE as u32)
    }
}

impl ExifBlock {
    fn first_index(&self, name: &str) -> (r: Option<usize>)
        ensures
            match lookup_index(entries_view(self.entry_data_vector@), name@, true, 0) {
                None => r is None,
                Some(j) => r matches Some(k) && k as int == j && 0 <= j < self.entry_data_vector@.len(),
            },
    {
        let r = self.find_index(name, 0, true);
        proof {
            let es = entries_view(self.entry_data_vector@);
            if let Some(j) = lookup_index(es, name@, true, 0) {
                assert(exists|k: int| crate::index::is_occurrence(es, name@, true, 0, k));
                let c = choose|k: int| crate::index::is_occurrence(es, name@, true, 0, k);
                assert(crate::index::is_occurrence(es, name@, true, 0, c));
            }
        }
        r
    }

    /// Writes `num / den` into the first entry named `name` when it holds an unsigned rational.
    pub fn patch_rational(&mut self, name: &str, num: u32, den: u32)
        ensures
            final(self).raw_exif@ == rational_patched(
                old(self).raw_exif@,
                entries_view(old(self).entry_data_vector@),
                old(self).motorola_order,
                name@,
                num,
                den,
            ),
            same_but_bytes(*final(self), *old(self)),
    {
        if let Some(j) = self.first_index(name) {
            let off = self.entry_data_vector[j].offset;
            let f = self.entry_data_vector[j].value.format;
            let count = self.entry_data_vector[j].value.count;
            let be = self.motorola_order;
            if f == FMT::URATIONAL && count >= 1 && off <= self.raw_exif.len()
                && 8 <= self.raw_exif.len() - off {
                let ghost b0 = self.raw_exif@;
                write_u32(&mut self.raw_exif, off, num, be);
                write_u32(&mut self.raw_exif, off + 4, den, be);
                assert(self.raw_exif@ =~= splice(b0, off as int, u32_bytes(num, be) + u32_bytes(den, be)));
            }
        }
    }

    fn patch_short(&mut self, name: &str, v: u16)
        ensures
            final(self).raw_exif@ == short_patched(
                old(self).raw_exif@,
                entries_view(old(self).entry_data_vector@),
                old(self).motorola_order,
                name@,
                v,
            ),
            same_but_bytes(*final(self), *old(self)),
    {
        if let Some(j) = self.first_index(name) {
            let off = self.entry_data_vector[j].offset;
            let f = self.entry_data_vector[j].value.format;
            let count = self.entry_data_vector[j].value.count;
            if (f == FMT::USHORT || f == FMT::SSHORT) && count >= 1 && off <= self.raw_exif.len() && 2
                <= self.raw_exif.len() - off {
                let ghost b0 = self.raw_exif@;
                let be = self.motorola_order;
                write_u16(&mut self.raw_exif, off, v, be);
                assert(self.raw_exif@ =~= splice(b0, off as int, u16_bytes(v, be)));
            }
        }
    }

    fn patch_dimension(&mut self, primary: &str, fallback: &str, v: u32)
        ensures
            final(self).raw_exif@ == dimension_patched(
                old(self).raw_exif@,
                entries_view(old(self).entry_data_vector@),
                old(self).motorola_order,
                primary@,
                fallback@,
                v,
            ),
            same_but_bytes(*final(self), *old(self)),
    {
        let found = match self.first_index(primary) {
            Some(j) => Some(j),
            None => self.first_index(fallback),
        };
        if let Some(j) = found {
            let off = self.entry_data_vector[j].offset;
            let f = self.entry_data_vector[j].value.format;
            let count = self.entry_data_vector[j].value.count;
            let be = self.motorola_order;
            let ghost b0 = self.raw_exif@;
            if (f == FMT::ULONG || f == FMT::SLONG) && count >= 1 && off <= self.raw_exif.len() && 4
                <= self.raw_exif.len() - off {
                write_u32(&mut self.raw_exif, off, v, be);
                assert(self.raw_exif@ =~= splice(b0, off as int, u32_bytes(v, be)));
            } else if (f == FMT::USHORT || f == FMT::SSHORT) && count >= 1 && v <= u16::MAX as u32 && off
                <= self.raw_exif.len() && 2 <= self.raw_exif.len() - off {
                write_u16(&mut self.raw_exif, off, v as u16, be);
                assert(self.raw_exif@ =~= splice(b0, off as int, u16_bytes(v as u16, be)));
            }
        }
    }

    fn patch_text(&mut self, name: &str, text: &[u8])
        ensures
            final(self).raw_exif@ == text_patched(
                old(self).raw_exif@,
                entries_view(old(self).entry_data_vector@),
                name@,
                text@,
            ),
            same_but_bytes(*final(self), *old(self)),
    {
        if let Some(j) = self.first_index(name) {
            let off = self.entry_data_vector[j].offset;
            let f = self.entry_data_vector[j].value.format;
            let count = self.entry_data_vector[j].value.count;
            if (f == FMT::STRING || f == FMT::UNDEFINED || f == FMT::UTF_8) && text.len() <= count as usize
                && off <= self.raw_exif.len() && text.len() <= self.raw_exif.len() - off {
                let ghost b0 = self.raw_exif@;
                let mut k: usize = 0;
                while k < text.len()
                    invariant
                        k <= text@.len(),
                        off + text@.len() <= b0.len(),
                        b0.len() <= usize::MAX,
                        self.raw_exif@.len() == b0.len(),
                        forall|i: int| 0 <= i < b0.len() ==> self.raw_exif@[i] == if off <= i < off + k {
                            text@[i - off]
                        } else {
                            b0[i]
                        },
                        same_but_bytes(*self, *old(self)),
                    decreases text@.len() - k,
                {
                    self.raw_exif.set(off + k, text[k]);
                    k += 1;
                }
                assert(self.raw_exif@ =~= splice(b0, off as int, text@));
            }
        }
    }

    /// Replaces the embedded thumbnail with `new_thumb`, only when it has
    /// exactly the length reserved at decode time.
    pub fn patch_thumbnail(&mut self, new_thumb: &[u8])
        ensures
            final(self).raw_exif@ == thumbnail_patched(
                old(self).raw_exif@,
                old(self).thumbnailoffset as nat,
                old(self).thumbnailsize as nat,
                new_thumb@,
            ),
            same_but_bytes(*final(self), *old(self)),
    {
        let size = self.thumbnailsize as usize;
        let start = OFFSET_BASE as u64 + self.thumbnailoffset as u64;
        if size > 0 && start <= self.raw_exif.len() as u64 && size <= self.raw_exif.len() - start as usize
            && new_thumb.len() == size {
            let start = start as usize;
            let ghost b0 = self.raw_exif@;
            let mut k: usize = 0;
            while k < size
                invariant
                    k <= size,
                    size == new_thumb@.len(),
                    start + size <= b0.len(),
                    b0.len() <= usize::MAX,
                    self.raw_exif@.len() == b0.len(),
                    forall|i: int| 0 <= i < b0.len() ==> self.raw_exif@[i] == if start <= i < start + k {
                        new_thumb@[i - start]
                    } else {
                        b0[i]
                    },
                    same_but_bytes(*self, *old(self)),
                decreases size - k,
            {
                self.raw_exif.set(start + k, new_thumb[k]);
                k += 1;
            }
            assert(self.raw_exif@ =~= splice(b0, start as int, new_thumb@));
        }
    }

    /// Patches every field a save updates, with resolutions in
    /// hundred-thousandths and `stamp` as the new timestamp text.
    pub fn patch_fields(&mut self, xres_e5: u64, yres_e5: u64, w: u32, h: u32, stamp: &[u8])
        ensures
            final(self).raw_exif@ == fields_patched(
                old(self).raw_exif@,
                entries_view(old(self).entry_data_vector@),
                old(self).motorola_order,
                xres_e5,
                yres_e5,
                w,
                h,
                stamp@,
            ),
            same_but_bytes(*final(self), *old(self)),
    {
        let (xn, xd) = resolution_to_rational(xres_e5);
        let (yn, yd) = resolution_to_rational(yres_e5);
        self.patch_rational("XResolution", xn, xd);
        self.patch_rational("YResolution", yn, yd);
        self.patch_short("Orientation", 1);
        self.patch_text("DateTime", stamp);
        self.patch_dimension("PixelXDimension", "ImageWidth", w);
        self.patch_dimension("PixelYDimension", "ImageLength", h);
    }

    /// Patches every field a save updates, stamping the current local time
    /// (`YYYY:MM:DD HH:MM:SS`) into the timestamp field when it fits.
    pub fn patch_exifdata(&mut self, xres_e5: u64, yres_e5: u64, w: u32, h: u32)
        ensures
            exists|stamp: Seq<char>|
                final(self).raw_exif@ == fields_patched(
                    old(self).raw_exif@,
                    entries_view(old(self).entry_data_vector@),
                    old(self).motorola_order,
                    xres_e5,
                    yres_e5,
                    w,
                    h,
                    encode_utf8(stamp),
                ),
            same_but_bytes(*final(self), *old(self)),
    {
        let stamp = local_timestamp();
        let bytes = stamp.as_str().as_bytes();
        self.patch_fields(xres_e5, yres_e5, w, h, bytes);
        assert(bytes@ == encode_utf8(stamp@));
    }
}

} // verus!
