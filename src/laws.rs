use vstd::prelude::*;
use crate::block::{decode_walk, header_check, initial_walk, root_items};
use crate::bytes::{signed16, signed32, signed8, u16_at, u16_bytes, u32_at, u32_bytes, u64_at};
use crate::decode::{
    entry_at, exif_entries, exif_leaf_step, exif_pointer_step, exif_step, gps_entries, gps_step,
    value_location, walk_exif, walk_gps, with_last_ref, DocItemView, DocValueView, EntryView, ExifError, WalkView,
    MAX_NESTING, OFFSET_BASE,
};
use crate::patch::{first_entry, rational_patched, resolution_rational, splice, RESOLUTION_SCALE};
use crate::tags::{exif_tag_enu, exif_tag_name, format_of, format_width, ExifTagId, FMT};
use crate::value::{decoded_value, ValueView};

verus! {

/// A block made of the header and one empty directory, with a zero
/// next-directory pointer, decodes: the flat index is empty and the root
/// directory holds only the declared length.
pub proof fn lemma_minimal_block_decodes(s: Seq<u8>)
    requires
        header_check(s) is Ok,
        header_check(s)->Ok_0.1 + OFFSET_BASE + 6 <= s.len(),
        u16_at(s, header_check(s)->Ok_0.1 + OFFSET_BASE, header_check(s)->Ok_0.0) == 0,
        u32_at(s, header_check(s)->Ok_0.1 + OFFSET_BASE + 2, header_check(s)->Ok_0.0) == 0,
    ensures
        decode_walk(s, s.len()) is Ok,
        decode_walk(s, s.len())->Ok_0.1.entries.len() == 0,
        root_items(s, s.len(), decode_walk(s, s.len())->Ok_0.1, decode_walk(s, s.len())->Ok_0.2) == seq![
            DocItemView { name: "Exiflength"@, value: DocValueView::Number(s.len()) },
        ],
{
    let (be, first) = header_check(s)->Ok_0;
    let d = (first + OFFSET_BASE) as nat;
    let st1 = with_last_ref(initial_walk(), entry_at(d as int, 0));
    assert(exif_entries(s, be, s.len(), d, 0, (MAX_NESTING - 1) as nat, st1) == Ok::<
        (WalkView, Seq<DocItemView>),
        ExifError,
    >((st1, Seq::empty())));
    assert(walk_exif(s, be, s.len(), d, MAX_NESTING as nat, initial_walk()) == Ok::<
        (WalkView, Seq<DocItemView>),
        ExifError,
    >((st1, Seq::empty())));
    assert(root_items(s, s.len(), st1, Seq::empty()) =~= seq![
        DocItemView { name: "Exiflength"@, value: DocValueView::Number(s.len()) },
    ]);
}

/// A directory whose entry table, by its declared entry count, ends past the
/// block's declared length (other than exactly 2 or 4 bytes short of room
/// for the next-directory pointer), or whose count field itself lies past
/// it, fails the walk with `IllegalDirectorySize`, at any depth.
pub proof fn lemma_oversized_directory_rejected(b: Seq<u8>, be: bool, end: nat, d: nat, budget: nat, st: WalkView)
    requires
        budget > 0,
        d + 2 > end || ({
            let dend = entry_at(d as int, u16_at(b, d as int, be) as int);
            dend + 4 > end && dend + 2 != end && dend != end
        }),
    ensures
        walk_exif(b, be, end, d, budget, st) == Err::<(WalkView, Seq<DocItemView>), ExifError>(
            ExifError::IllegalDirectorySize,
        ),
{
}

/// A GPS directory whose entry table, by its declared entry count, ends past
/// the block's declared length, or whose count field itself lies past it,
/// fails the walk with `IllegalDirectorySize`.
pub proof fn lemma_oversized_gps_directory_rejected(b: Seq<u8>, be: bool, end: nat, d: nat, budget: nat, st: WalkView)
    requires
        budget > 0,
        d + 2 > end || entry_at(d as int, u16_at(b, d as int, be) as int) > end,
    ensures
        walk_gps(b, be, end, d, budget, st) == Err::<(WalkView, Seq<DocItemView>), ExifError>(
            ExifError::IllegalDirectorySize,
        ),
{
}

/// The same for the first directory of a whole block.
pub proof fn lemma_oversized_first_directory_rejected(s: Seq<u8>, length: nat)
    requires
        header_check(s) is Ok,
        14 <= length <= s.len(),
        ({
            let (be, first) = header_check(s)->Ok_0;
            let d = first + OFFSET_BASE;
            let dend = entry_at(d, u16_at(s, d, be) as int);
            d + 2 > length || (dend + 4 > length && dend + 2 != length && dend != length)
        }),
    ensures
        decode_walk(s, length) == Err::<(bool, WalkView, Seq<DocItemView>), ExifError>(
            ExifError::IllegalDirectorySize,
        ),
{
    let (be, first) = header_check(s)->Ok_0;
    lemma_oversized_directory_rejected(s, be, length, (first + OFFSET_BASE) as nat, MAX_NESTING as nat, initial_walk());
}

proof fn lemma_u16_read_back(v: u16, be: bool)
    ensures
        u16_at(u16_bytes(v, be), 0, be) == v,
{
    let hi = (v / 0x100) as u8;
    let lo = (v % 0x100) as u8;
    assert(hi as int == v / 0x100);
    assert(lo as int == v % 0x100);
}

proof fn lemma_u32_read_back(v: u32, be: bool)
    ensures
        u32_at(u32_bytes(v, be), 0, be) == v,
{
    let high = (v / 0x10000) as u16;
    let low = (v % 0x10000) as u16;
    lemma_u16_read_back(high, be);
    lemma_u16_read_back(low, be);
    let bs = u32_bytes(v, be);
    if be {
        assert(bs.subrange(0, 2) =~= u16_bytes(high, true));
        assert(bs.subrange(2, 4) =~= u16_bytes(low, true));
        assert(u16_at(bs, 0, true) == u16_at(u16_bytes(high, true), 0, true));
        assert(u16_at(bs, 2, true) == u16_at(u16_bytes(low, true), 0, true));
    } else {
        assert(u16_at(bs, 0, false) == u16_at(u16_bytes(low, false), 0, false));
        assert(u16_at(bs, 2, false) == u16_at(u16_bytes(high, false), 0, false));
    }
}

/// After patching a resolution into the first entry named `name`, that
/// entry's value bytes read back as the rational chosen for it, and the
/// rational equals the requested resolution of `e5` hundred-thousandths
/// (when it did not have to saturate).
pub proof fn lemma_resolution_read_back(b: Seq<u8>, es: Seq<EntryView>, be: bool, name: Seq<char>, e5: u64)
    requires
        first_entry(es, name) is Some,
        first_entry(es, name)->Some_0.value.format == FMT::URATIONAL,
        first_entry(es, name)->Some_0.value.count >= 1,
        first_entry(es, name)->Some_0.offset + 8 <= b.len(),
    ensures
        ({
            let (n, d) = resolution_rational(e5);
            let e = first_entry(es, name)->Some_0;
            let p = rational_patched(b, es, be, name, n, d);
            &&& p.len() == b.len()
            &&& decoded_value(p, be, e.value.format, e.offset as int, 1).0 == ValueView::Rational(n, d)
            &&& (e5 % RESOLUTION_SCALE == 0 && e5 / RESOLUTION_SCALE <= u32::MAX || e5 <= u32::MAX) ==> n
                * RESOLUTION_SCALE == e5 * d
        }),
{
    let (n, d) = resolution_rational(e5);
    let e = first_entry(es, name)->Some_0;
    let off = e.offset as int;
    let p = rational_patched(b, es, be, name, n, d);
    let bytes = u32_bytes(n, be) + u32_bytes(d, be);
    assert(p == splice(b, off, bytes));
    lemma_u32_read_back(n, be);
    lemma_u32_read_back(d, be);
    assert(bytes.len() == 8);
    assert(p.subrange(off, off + 4) =~= u32_bytes(n, be));
    assert(p.subrange(off + 4, off + 8) =~= u32_bytes(d, be));
    assert(u32_at(p, off, be) == u32_at(u32_bytes(n, be), 0, be)) by {
        assert(forall|i: int| 0 <= i < 4 ==> p[off + i] == u32_bytes(n, be)[i]);
    }
    assert(u32_at(p, off + 4, be) == u32_at(u32_bytes(d, be), 0, be)) by {
        assert(forall|i: int| 0 <= i < 4 ==> p[off + 4 + i] == u32_bytes(d, be)[i]);
    }
    lemma_single_rational_value(p, be, e.value.format, off);
    lemma_resolution_rational_exact(e5);
}

proof fn lemma_single_rational_value(p: Seq<u8>, be: bool, f: FMT, off: int)
    requires
        f == FMT::URATIONAL,
    ensures
        decoded_value(p, be, f, off, 1).0 == ValueView::Rational(u32_at(p, off, be), u32_at(p, off + 4, be)),
{
    reveal(decoded_value);
}

proof fn lemma_resolution_rational_exact(e5: u64)
    ensures
        (e5 % RESOLUTION_SCALE == 0 && e5 / RESOLUTION_SCALE <= u32::MAX || e5 <= u32::MAX) ==> resolution_rational(e5).0
            * RESOLUTION_SCALE == e5 * resolution_rational(e5).1,
{
    if e5 % RESOLUTION_SCALE == 0 && e5 / RESOLUTION_SCALE <= u32::MAX {
        assert((e5 / RESOLUTION_SCALE) * RESOLUTION_SCALE == e5) by (nonlinear_arith)
            requires
                e5 % RESOLUTION_SCALE == 0,
        ;
    }
}

/// Byte-order symmetry of 16-bit fields: bytes read big-endian give the same
/// value as the same bytes swapped, read little-endian.
pub proof fn lemma_swapped_u16_read_alike(b: Seq<u8>, c: Seq<u8>, p: int, q: int)
    requires
        0 <= p,
        p + 2 <= b.len(),
        0 <= q,
        q + 2 <= c.len(),
        c[q] == b[p + 1],
        c[q + 1] == b[p],
    ensures
        u16_at(b, p, true) == u16_at(c, q, false),
{
}

/// Byte-order symmetry of 32-bit fields: bytes read big-endian give the same
/// value as the same bytes reversed, read little-endian.
pub proof fn lemma_swapped_u32_read_alike(b: Seq<u8>, c: Seq<u8>, p: int, q: int)
    requires
        0 <= p,
        p + 4 <= b.len(),
        0 <= q,
        q + 4 <= c.len(),
        c[q] == b[p + 3],
        c[q + 1] == b[p + 2],
        c[q + 2] == b[p + 1],
        c[q + 3] == b[p],
    ensures
        u32_at(b, p, true) == u32_at(c, q, false),
{
}

/// Width of the fields whose bytes a change of byte order reverses: the
/// component width, but each half of a rational on its own.
pub open spec fn swap_width(f: FMT) -> int {
    match f {
        FMT::URATIONAL | FMT::SRATIONAL => 4,
        FMT::NONE | FMT::NUM_FORMATS => 1,
        _ => format_width(f) as int,
    }
}

/// `c` holds at `p` the `count` components of format `f` that `b` holds at
/// `p`, with the bytes of every multi-byte field reversed.
pub open spec fn swapped_components(b: Seq<u8>, c: Seq<u8>, f: FMT, p: int, count: nat) -> bool {
    let w = swap_width(f);
    forall|i: int|
        #![trigger c[p + i]]
        0 <= i < count * format_width(f) ==> c[p + i] == b[p + (i / w) * w + (w - 1 - i % w)]
}

proof fn lemma_swapped_u64_read_alike(b: Seq<u8>, c: Seq<u8>, p: int)
    requires
        0 <= p,
        p + 8 <= b.len(),
        p + 8 <= c.len(),
        c[p] == b[p + 7],
        c[p + 1] == b[p + 6],
        c[p + 2] == b[p + 5],
        c[p + 3] == b[p + 4],
        c[p + 4] == b[p + 3],
        c[p + 5] == b[p + 2],
        c[p + 6] == b[p + 1],
        c[p + 7] == b[p],
    ensures
        u64_at(b, p, true) == u64_at(c, p, false),
{
    lemma_swapped_u32_read_alike(b, c, p + 4, p);
    lemma_swapped_u32_read_alike(b, c, p, p + 4);
}

proof fn lemma_component_in_range(f: FMT, p: int, count: nat, k: int, len: int)
    requires
        0 <= k < count,
        p + count * format_width(f) <= len,
    ensures
        p + k * format_width(f) + format_width(f) <= len,
{
    assert(k * format_width(f) + format_width(f) <= count * format_width(f)) by (nonlinear_arith)
        requires
            0 <= k < count,
    ;
}

proof fn lemma_swapped_short(b: Seq<u8>, c: Seq<u8>, f: FMT, p: int, count: nat, k: int)
    requires
        f == FMT::USHORT || f == FMT::SSHORT,
        0 <= p,
        0 <= k < count,
        p + count * format_width(f) <= b.len(),
        p + count * format_width(f) <= c.len(),
        swapped_components(b, c, f, p, count),
    ensures
        u16_at(b, p + 2 * k, true) == u16_at(c, p + 2 * k, false),
{
    lemma_component_in_range(f, p, count, k, b.len() as int);
    lemma_component_in_range(f, p, count, k, c.len() as int);
    let i = 2 * k;
    assert(2 * k + 2 <= count * format_width(f)) by (nonlinear_arith)
        requires
            0 <= k < count,
            format_width(f) == 2,
    ;
    assert(i / 2 == k && i % 2 == 0 && (i + 1) / 2 == k && (i + 1) % 2 == 1);
    assert(c[p + i] == b[p + (i / 2) * 2 + (1 - i % 2)]);
    assert(c[p + (i + 1)] == b[p + ((i + 1) / 2) * 2 + (1 - (i + 1) % 2)]);
    lemma_swapped_u16_read_alike(b, c, p + i, p + i);
}

proof fn lemma_swapped_long(b: Seq<u8>, c: Seq<u8>, f: FMT, p: int, count: nat, k: int, at: int)
    requires
        swap_width(f) == 4,
        0 <= p,
        0 <= at,
        at % 4 == 0,
        at + 4 <= count * format_width(f),
        p + count * format_width(f) <= b.len(),
        p + count * format_width(f) <= c.len(),
        swapped_components(b, c, f, p, count),
    ensures
        u32_at(b, p + at, true) == u32_at(c, p + at, false),
{
    let i = at;
    let q = at / 4;
    assert(i == 4 * q);
    assert(i / 4 == q && (i + 1) / 4 == q && (i + 2) / 4 == q && (i + 3) / 4 == q);
    assert(i % 4 == 0 && (i + 1) % 4 == 1 && (i + 2) % 4 == 2 && (i + 3) % 4 == 3);
    assert(c[p + i] == b[p + (i / 4) * 4 + (3 - i % 4)]);
    assert(c[p + (i + 1)] == b[p + ((i + 1) / 4) * 4 + (3 - (i + 1) % 4)]);
    assert(c[p + (i + 2)] == b[p + ((i + 2) / 4) * 4 + (3 - (i + 2) % 4)]);
    assert(c[p + (i + 3)] == b[p + ((i + 3) / 4) * 4 + (3 - (i + 3) % 4)]);
    lemma_swapped_u32_read_alike(b, c, p + i, p + i);
}

proof fn lemma_swapped_double(b: Seq<u8>, c: Seq<u8>, p: int, count: nat, k: int)
    requires
        0 <= p,
        0 <= k < count,
        p + count * 8 <= b.len(),
        p + count * 8 <= c.len(),
        swapped_components(b, c, FMT::DOUBLE, p, count),
    ensures
        u64_at(b, p + 8 * k, true) == u64_at(c, p + 8 * k, false),
{
    lemma_component_in_range(FMT::DOUBLE, p, count, k, b.len() as int);
    lemma_component_in_range(FMT::DOUBLE, p, count, k, c.len() as int);
    let i = 8 * k;
    assert(8 * k + 8 <= count * format_width(FMT::DOUBLE)) by (nonlinear_arith)
        requires
            0 <= k < count,
            format_width(FMT::DOUBLE) == 8,
    ;
    assert(i / 8 == k && (i + 1) / 8 == k && (i + 2) / 8 == k && (i + 3) / 8 == k);
    assert((i + 4) / 8 == k && (i + 5) / 8 == k && (i + 6) / 8 == k && (i + 7) / 8 == k);
    assert(i % 8 == 0 && (i + 1) % 8 == 1 && (i + 2) % 8 == 2 && (i + 3) % 8 == 3);
    assert((i + 4) % 8 == 4 && (i + 5) % 8 == 5 && (i + 6) % 8 == 6 && (i + 7) % 8 == 7);
    assert(c[p + i] == b[p + (i / 8) * 8 + (7 - i % 8)]);
    assert(c[p + (i + 1)] == b[p + ((i + 1) / 8) * 8 + (7 - (i + 1) % 8)]);
    assert(c[p + (i + 2)] == b[p + ((i + 2) / 8) * 8 + (7 - (i + 2) % 8)]);
    assert(c[p + (i + 3)] == b[p + ((i + 3) / 8) * 8 + (7 - (i + 3) % 8)]);
    assert(c[p + (i + 4)] == b[p + ((i + 4) / 8) * 8 + (7 - (i + 4) % 8)]);
    assert(c[p + (i + 5)] == b[p + ((i + 5) / 8) * 8 + (7 - (i + 5) % 8)]);
    assert(c[p + (i + 6)] == b[p + ((i + 6) / 8) * 8 + (7 - (i + 6) % 8)]);
    assert(c[p + (i + 7)] == b[p + ((i + 7) / 8) * 8 + (7 - (i + 7) % 8)]);
    lemma_swapped_u64_read_alike(b, c, p + i);
}

proof fn lemma_swapped_field(b: Seq<u8>, c: Seq<u8>, f: FMT, p: int, count: nat, k: int)
    requires
        0 <= p,
        0 <= k < count,
        p + count * format_width(f) <= b.len(),
        p + count * format_width(f) <= c.len(),
        swapped_components(b, c, f, p, count),
    ensures
        (f == FMT::USHORT || f == FMT::SSHORT) ==> u16_at(b, p + 2 * k, true) == u16_at(c, p + 2 * k, false),
        (f == FMT::ULONG || f == FMT::SLONG || f == FMT::SINGLE) ==> u32_at(b, p + 4 * k, true) == u32_at(
            c,
            p + 4 * k,
            false,
        ),
        (f == FMT::URATIONAL || f == FMT::SRATIONAL) ==> u32_at(b, p + 8 * k, true) == u32_at(c, p + 8 * k, false)
            && u32_at(b, p + 8 * k + 4, true) == u32_at(c, p + 8 * k + 4, false),
        f == FMT::DOUBLE ==> u64_at(b, p + 8 * k, true) == u64_at(c, p + 8 * k, false),
{
    lemma_component_in_range(f, p, count, k, b.len() as int);
    if f == FMT::USHORT || f == FMT::SSHORT {
        lemma_swapped_short(b, c, f, p, count, k);
    } else if f == FMT::ULONG || f == FMT::SLONG || f == FMT::SINGLE {
        assert((4 * k) % 4 == 0);
        assert(4 * k + 4 <= count * format_width(f)) by (nonlinear_arith)
            requires
                0 <= k < count,
                format_width(f) == 4,
        ;
        lemma_swapped_long(b, c, f, p, count, k, 4 * k);
    } else if f == FMT::URATIONAL || f == FMT::SRATIONAL {
        assert((8 * k) % 4 == 0 && (8 * k + 4) % 4 == 0);
        assert(8 * k + 8 <= count * format_width(f)) by (nonlinear_arith)
            requires
                0 <= k < count,
                format_width(f) == 8,
        ;
        lemma_swapped_long(b, c, f, p, count, k, 8 * k);
        lemma_swapped_long(b, c, f, p, count, k, 8 * k + 4);
        assert(p + (8 * k + 4) == p + 8 * k + 4);
    } else if f == FMT::DOUBLE {
        lemma_swapped_double(b, c, p, count, k);
    }
}

proof fn lemma_swapped_bytes_equal(b: Seq<u8>, c: Seq<u8>, f: FMT, p: int, count: nat)
    requires
        0 <= p,
        format_width(f) == 1,
        p + count * format_width(f) <= b.len(),
        p + count * format_width(f) <= c.len(),
        swapped_components(b, c, f, p, count),
    ensures
        b.subrange(p, p + count) == c.subrange(p, p + count),
        forall|i: int| 0 <= i < count ==> #[trigger] c[p + i] == b[p + i],
{
    let n = count * format_width(f);
    assert forall|i: int| 0 <= i < n implies #[trigger] c[p + i] == b[p + i] by {
        assert(c[p + i] == b[p + (i / 1) * 1 + (1 - 1 - i % 1)]);
    }
    assert forall|i: int| 0 <= i < n implies #[trigger] b.subrange(p, p + n)[i] == c.subrange(p, p + n)[i] by {
        assert(c[p + i] == b[p + i]);
    }
    assert(b.subrange(p, p + n) =~= c.subrange(p, p + n));
}

proof fn lemma_swapped_multibyte_values(b: Seq<u8>, c: Seq<u8>, f: FMT, p: int, count: nat)
    requires
        0 <= p,
        p + count * format_width(f) <= b.len(),
        p + count * format_width(f) <= c.len(),
        swapped_components(b, c, f, p, count),
    ensures
        Seq::new(count, |k: int| u16_at(b, p + 2 * k, true)) == Seq::new(count, |k: int| u16_at(c, p + 2 * k, false))
            || !(f == FMT::USHORT || f == FMT::SSHORT),
        Seq::new(count, |k: int| u32_at(b, p + 4 * k, true)) == Seq::new(count, |k: int| u32_at(c, p + 4 * k, false))
            || !(f == FMT::ULONG || f == FMT::SLONG || f == FMT::SINGLE),
        Seq::new(count, |k: int| u32_at(b, p + 8 * k, true)) == Seq::new(count, |k: int| u32_at(c, p + 8 * k, false))
            || !(f == FMT::URATIONAL || f == FMT::SRATIONAL),
        Seq::new(count, |k: int| u32_at(b, p + 8 * k + 4, true)) == Seq::new(count, |k: int| u32_at(c, p + 8 * k + 4, false))
            || !(f == FMT::URATIONAL || f == FMT::SRATIONAL),
        Seq::new(count, |k: int| u64_at(b, p + 8 * k, true)) == Seq::new(count, |k: int| u64_at(c, p + 8 * k, false))
            || !(f == FMT::DOUBLE),
{
    if f == FMT::USHORT || f == FMT::SSHORT {
        assert forall|k: int| 0 <= k < count implies #[trigger] u16_at(b, p + 2 * k, true) == u16_at(c, p + 2 * k, false) by {
            lemma_swapped_field(b, c, f, p, count, k);
        }
        assert(Seq::new(count, |k: int| u16_at(b, p + 2 * k, true)) =~= Seq::new(count, |k: int| u16_at(c, p + 2 * k, false)));
    } else if f == FMT::ULONG || f == FMT::SLONG || f == FMT::SINGLE {
        assert forall|k: int| 0 <= k < count implies #[trigger] u32_at(b, p + 4 * k, true) == u32_at(c, p + 4 * k, false) by {
            lemma_swapped_field(b, c, f, p, count, k);
        }
        assert(Seq::new(count, |k: int| u32_at(b, p + 4 * k, true)) =~= Seq::new(count, |k: int| u32_at(c, p + 4 * k, false)));
    } else if f == FMT::URATIONAL || f == FMT::SRATIONAL {
        assert forall|k: int| 0 <= k < count implies #[trigger] u32_at(b, p + 8 * k, true) == u32_at(c, p + 8 * k, false) by {
            lemma_swapped_field(b, c, f, p, count, k);
        }
        assert forall|k: int| 0 <= k < count implies #[trigger] u32_at(b, p + 8 * k + 4, true) == u32_at(c, p + 8 * k + 4, false) by {
            lemma_swapped_field(b, c, f, p, count, k);
        }
        assert(Seq::new(count, |k: int| u32_at(b, p + 8 * k, true)) =~= Seq::new(count, |k: int| u32_at(c, p + 8 * k, false)));
        assert(Seq::new(count, |k: int| u32_at(b, p + 8 * k + 4, true)) =~= Seq::new(count, |k: int| u32_at(c, p + 8 * k + 4, false)));
    } else if f == FMT::DOUBLE {
        assert forall|k: int| 0 <= k < count implies #[trigger] u64_at(b, p + 8 * k, true) == u64_at(c, p + 8 * k, false) by {
            lemma_swapped_field(b, c, f, p, count, k);
        }
        assert(Seq::new(count, |k: int| u64_at(b, p + 8 * k, true)) =~= Seq::new(count, |k: int| u64_at(c, p + 8 * k, false)));
    }
}

/// Byte-order symmetry of decoded values: components read big-endian from
/// `b` decode to the same value as the same components, with every
/// multi-byte field reversed, read little-endian from `c`.
pub proof fn lemma_byte_order_independent_value(b: Seq<u8>, c: Seq<u8>, f: FMT, p: int, count: nat)
    requires
        0 <= p,
        p + count * format_width(f) <= b.len(),
        p + count * format_width(f) <= c.len(),
        swapped_components(b, c, f, p, count),
    ensures
        decoded_value(b, true, f, p, count) == decoded_value(c, false, f, p, count),
{
    reveal(decoded_value);
    if format_width(f) == 1 {
        lemma_swapped_bytes_equal(b, c, f, p, count);
        let sb = Seq::new(count, |k: int| signed8(b[p + k]) as i8);
        let sc = Seq::new(count, |k: int| signed8(c[p + k]) as i8);
        assert forall|k: int| 0 <= k < count implies #[trigger] sb[k] == sc[k] by {
            assert(c[p + k] == b[p + k]);
        }
        assert(sb =~= sc);
    } else {
        lemma_swapped_multibyte_values(b, c, f, p, count);
        let us = Seq::new(count, |k: int| u16_at(b, p + 2 * k, true));
        let ls = Seq::new(count, |k: int| u32_at(b, p + 4 * k, true));
        let nu = Seq::new(count, |k: int| u32_at(b, p + 8 * k, true));
        let de = Seq::new(count, |k: int| u32_at(b, p + 8 * k + 4, true));
        let ds = Seq::new(count, |k: int| u64_at(b, p + 8 * k, true));
        if count >= 1 {
            assert(us[0] == u16_at(b, p, true) && ls[0] == u32_at(b, p, true) && nu[0] == u32_at(b, p, true));
            assert(de[0] == u32_at(b, p + 4, true) && ds[0] == u64_at(b, p, true));
        }
        assert(Seq::new(count, |k: int| signed16(u16_at(b, p + 2 * k, true)) as i16) =~= Seq::new(count, |k: int| signed16(u16_at(c, p + 2 * k, false)) as i16)
            || !(f == FMT::SSHORT)) by {
            if f == FMT::SSHORT {
                assert forall|k: int| 0 <= k < count implies #[trigger] u16_at(b, p + 2 * k, true) == u16_at(c, p + 2 * k, false) by {
                    assert(us[k] == u16_at(b, p + 2 * k, true));
                }
            }
        }
        assert(Seq::new(count, |k: int| signed32(u32_at(b, p + 4 * k, true)) as i32) =~= Seq::new(count, |k: int| signed32(u32_at(c, p + 4 * k, false)) as i32)
            || !(f == FMT::SLONG)) by {
            if f == FMT::SLONG {
                assert forall|k: int| 0 <= k < count implies #[trigger] u32_at(b, p + 4 * k, true) == u32_at(c, p + 4 * k, false) by {
                    assert(ls[k] == u32_at(b, p + 4 * k, true));
                }
            }
        }
        assert(Seq::new(count, |k: int| (u32_at(b, p + 8 * k, true), u32_at(b, p + 8 * k + 4, true))) =~= Seq::new(count, |k: int| (u32_at(c, p + 8 * k, false), u32_at(c, p + 8 * k + 4, false)))
            || !(f == FMT::URATIONAL)) by {
            if f == FMT::URATIONAL {
                assert forall|k: int| 0 <= k < count implies #[trigger] u32_at(b, p + 8 * k, true) == u32_at(c, p + 8 * k, false)
                    && u32_at(b, p + 8 * k + 4, true) == u32_at(c, p + 8 * k + 4, false) by {
                    assert(nu[k] == u32_at(b, p + 8 * k, true) && de[k] == u32_at(b, p + 8 * k + 4, true));
                }
            }
        }
        assert(Seq::new(count, |k: int| (signed32(u32_at(b, p + 8 * k, true)) as i32, signed32(u32_at(b, p + 8 * k + 4, true)) as i32)) =~= Seq::new(count, |k: int| (signed32(u32_at(c, p + 8 * k, false)) as i32, signed32(u32_at(c, p + 8 * k + 4, false)) as i32))
            || !(f == FMT::SRATIONAL)) by {
            if f == FMT::SRATIONAL {
                assert forall|k: int| 0 <= k < count implies #[trigger] u32_at(b, p + 8 * k, true) == u32_at(c, p + 8 * k, false)
                    && u32_at(b, p + 8 * k + 4, true) == u32_at(c, p + 8 * k + 4, false) by {
                    assert(nu[k] == u32_at(b, p + 8 * k, true) && de[k] == u32_at(b, p + 8 * k + 4, true));
                }
            }
        }
    }
}

/// Every recorded entry's value, from its offset on, lies below `end`.
pub open spec fn offsets_within(es: Seq<EntryView>, end: nat) -> bool {
    forall|i: int|
        0 <= i < es.len() ==> #[trigger] es[i].offset + es[i].value.count * format_width(es[i].value.format) <= end
}

proof fn lemma_value_location_within(b: Seq<u8>, be: bool, end: nat, e: int, n: nat)
    requires
        e + 12 <= end,
        OFFSET_BASE <= end,
    ensures
        value_location(b, be, end, e, n) matches Some(p) ==> p + n <= end,
{
}

proof fn lemma_gps_entries_within(b: Seq<u8>, be: bool, end: nat, d: nat, i: nat, st: WalkView)
    requires
        OFFSET_BASE <= end,
        entry_at(d as int, i as int) <= end,
        offsets_within(st.entries, end),
    ensures
        gps_entries(b, be, end, d, i, st) matches Ok((s, _)) ==> offsets_within(s.entries, end),
    decreases i,
{
    if i > 0 {
        let j = (i - 1) as nat;
        lemma_gps_entries_within(b, be, end, d, j, st);
        if let Ok((s, it)) = gps_entries(b, be, end, d, j, st) {
            let e = entry_at(d as int, j as int);
            let f = format_of(u16_at(b, e + 2, be));
            let count = u32_at(b, e + 4, be);
            lemma_value_location_within(b, be, end, e, (count * format_width(f)) as nat);
            if let Ok((s2, _)) = gps_step(b, be, end, d, j, s, it) {
                assert(offsets_within(s2.entries, end));
            }
        }
    }
}

proof fn lemma_walk_gps_within(b: Seq<u8>, be: bool, end: nat, d: nat, budget: nat, st: WalkView)
    requires
        OFFSET_BASE <= end,
        offsets_within(st.entries, end),
    ensures
        walk_gps(b, be, end, d, budget, st) matches Ok((s, _)) ==> offsets_within(s.entries, end),
{
    if budget > 0 && d + 2 <= end && entry_at(d as int, u16_at(b, d as int, be) as int) <= end {
        lemma_gps_entries_within(b, be, end, d, u16_at(b, d as int, be) as nat, st);
    }
}

proof fn lemma_pointer_step_within(
    b: Seq<u8>,
    be: bool,
    end: nat,
    enu: ExifTagId,
    name: Seq<char>,
    p: int,
    child: nat,
    st: WalkView,
    items: Seq<DocItemView>,
)
    requires
        OFFSET_BASE <= end,
        offsets_within(st.entries, end),
    ensures
        exif_pointer_step(b, be, end, enu, name, p, child, st, items) matches Ok((s, _)) ==> offsets_within(
            s.entries,
            end,
        ),
    decreases child + 1, 0nat, 0nat,
{
    let sub = OFFSET_BASE + u32_at(b, p, be);
    if sub <= end {
        lemma_walk_gps_within(b, be, end, sub as nat, child, st);
        lemma_walk_exif_within(b, be, end, sub as nat, child, st);
    }
}

proof fn lemma_exif_step_within(
    b: Seq<u8>,
    be: bool,
    end: nat,
    d: nat,
    i: nat,
    child: nat,
    st: WalkView,
    items: Seq<DocItemView>,
)
    requires
        OFFSET_BASE <= end,
        entry_at(d as int, i as int) + 12 <= end,
        offsets_within(st.entries, end),
    ensures
        exif_step(b, be, end, d, i, child, st, items) matches Ok((s, _)) ==> offsets_within(s.entries, end),
    decreases child + 1, 0nat, 1nat,
{
    let e = entry_at(d as int, i as int);
    let id = u16_at(b, e, be);
    let f = format_of(u16_at(b, e + 2, be));
    let count = u32_at(b, e + 4, be);
    let n = (count * format_width(f)) as nat;
    lemma_value_location_within(b, be, end, e, n);
    if let Some(p) = value_location(b, be, end, e, n) {
        let st1 = with_last_ref(st, p + n);
        let enu = exif_tag_enu(id);
        let name = exif_tag_name(id);
        lemma_pointer_step_within(b, be, end, enu, name, p, child, st1, items);
        lemma_leaf_step_within(b, be, end, d, enu, name, f, count, p, st1, items);
    }
}

proof fn lemma_leaf_step_within(
    b: Seq<u8>,
    be: bool,
    end: nat,
    d: nat,
    enu: ExifTagId,
    name: Seq<char>,
    f: FMT,
    count: u32,
    p: int,
    st: WalkView,
    items: Seq<DocItemView>,
)
    requires
        0 <= p,
        p + count * format_width(f) <= end,
        offsets_within(st.entries, end),
    ensures
        offsets_within(exif_leaf_step(b, be, d, enu, name, f, count, p, st, items).0.entries, end),
{
    reveal(exif_leaf_step);
    let es = exif_leaf_step(b, be, d, enu, name, f, count, p, st, items).0.entries;
    assert(es.len() == st.entries.len() + 1);
    assert forall|i: int| 0 <= i < es.len() implies #[trigger] es[i].offset + es[i].value.count * format_width(
        es[i].value.format,
    ) <= end by {
        if i < st.entries.len() {
            assert(es[i] == st.entries[i]);
        } else {
            assert(es[i].offset == p && es[i].value.count == count && es[i].value.format == f);
        }
    }
}

proof fn lemma_exif_entries_within(b: Seq<u8>, be: bool, end: nat, d: nat, i: nat, child: nat, st: WalkView)
    requires
        OFFSET_BASE <= end,
        entry_at(d as int, i as int) <= end,
        offsets_within(st.entries, end),
    ensures
        exif_entries(b, be, end, d, i, child, st) matches Ok((s, _)) ==> offsets_within(s.entries, end),
    decreases child + 1, 1nat, i,
{
    if i > 0 {
        let j = (i - 1) as nat;
        lemma_exif_entries_within(b, be, end, d, j, child, st);
        if let Ok((s, it)) = exif_entries(b, be, end, d, j, child, st) {
            lemma_exif_step_within(b, be, end, d, j, child, s, it);
        }
    }
}

proof fn lemma_walk_exif_within(b: Seq<u8>, be: bool, end: nat, d: nat, budget: nat, st: WalkView)
    requires
        OFFSET_BASE <= end,
        offsets_within(st.entries, end),
    ensures
        walk_exif(b, be, end, d, budget, st) matches Ok((s, _)) ==> offsets_within(s.entries, end),
    decreases budget, 2nat, 0nat,
{
    if budget > 0 && d + 2 <= end {
        let cnt = u16_at(b, d as int, be) as nat;
        let dend = entry_at(d as int, cnt as int);
        if !(dend + 4 > end && dend + 2 != end && dend != end) {
            let st1 = with_last_ref(st, dend);
            lemma_exif_entries_within(b, be, end, d, cnt, (budget - 1) as nat, st1);
            if let Ok((st2, _)) = exif_entries(b, be, end, d, cnt, (budget - 1) as nat, st1) {
                if dend + 4 <= end {
                    lemma_walk_exif_within(b, be, end, (OFFSET_BASE + u32_at(b, dend, be)) as nat, (budget - 1) as nat, st2);
                }
            }
        }
    }
}

/// Every offset that a successful decode records in the flat index, with its
/// value's bytes, lies within the declared length, so later patches at those
/// offsets stay inside the block.
pub proof fn lemma_decoded_offsets_within(s: Seq<u8>, length: nat)
    requires
        decode_walk(s, length) is Ok,
    ensures
        offsets_within(decode_walk(s, length)->Ok_0.1.entries, length),
{
    let (be, first) = header_check(s)->Ok_0;
    lemma_walk_exif_within(s, be, length, (first + OFFSET_BASE) as nat, MAX_NESTING as nat, initial_walk());
}

} // verus!
