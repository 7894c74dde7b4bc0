use vstd::prelude::*;
use crate::bytes::{
    read_u16, read_u32, read_u64, signed16, signed32, signed8, to_i16, to_i32, to_i8, u16_at, u32_at,
    u64_at,
};
use crate::external::{base64_encode, base64_of, lossy_text, utf8_lossy};
use crate::tags::{format_width, FMT};

verus! {

/// Largest byte or signed-byte array kept verbatim; longer ones become base64 text.
pub const INLINE_BYTES_MAX: usize = 120;

/// A decoded tag value. Floating-point components are kept as their IEEE-754
/// bit patterns.
#[derive(Debug, Clone)]
pub enum TagValue {
    Text(String),
    Bytes(Vec<u8>),
    SBytes(Vec<i8>),
    /// A byte array too long to keep verbatim, as base64 text.
    Blob(String),
    UShort(u16),
    UShorts(Vec<u16>),
    SShort(i16),
    SShorts(Vec<i16>),
    ULong(u32),
    ULongs(Vec<u32>),
    SLong(i32),
    SLongs(Vec<i32>),
    /// An unsigned rational: numerator and denominator.
    Rational(u32, u32),
    Rationals(Vec<(u32, u32)>),
    /// A signed rational: numerator and denominator.
    SRational(i32, i32),
    SRationals(Vec<(i32, i32)>),
    Single(u32),
    Singles(Vec<u32>),
    Double(u64),
    Doubles(Vec<u64>),
    /// Stands in the flat index for a value too large to keep there.
    LongData,
    Null,
}

/// Mathematical view of a `TagValue`.
pub enum ValueView {
    Text(Seq<char>),
    Bytes(Seq<u8>),
    SBytes(Seq<i8>),
    Blob(Seq<char>),
    UShort(u16),
    UShorts(Seq<u16>),
    SShort(i16),
    SShorts(Seq<i16>),
    ULong(u32),
    ULongs(Seq<u32>),
    SLong(i32),
    SLongs(Seq<i32>),
    Rational(u32, u32),
    Rationals(Seq<(u32, u32)>),
    SRational(i32, i32),
    SRationals(Seq<(i32, i32)>),
    Single(u32),
    Singles(Seq<u32>),
    Double(u64),
    Doubles(Seq<u64>),
    LongData,
    Null,
}

impl View for TagValue {
    type V = ValueView;

    open spec fn view(&self) -> ValueView {
        match self {
            TagValue::Text(s) => ValueView::Text(s@),
            TagValue::Bytes(v) => ValueView::Bytes(v@),
            TagValue::SBytes(v) => ValueView::SBytes(v@),
            TagValue::Blob(s) => ValueView::Blob(s@),
            TagValue::UShort(x) => ValueView::UShort(*x),
            TagValue::UShorts(v) => ValueView::UShorts(v@),
            TagValue::SShort(x) => ValueView::SShort(*x),
            TagValue::SShorts(v) => ValueView::SShorts(v@),
            TagValue::ULong(x) => ValueView::ULong(*x),
            TagValue::ULongs(v) => ValueView::ULongs(v@),
            TagValue::SLong(x) => ValueView::SLong(*x),
            TagValue::SLongs(v) => ValueView::SLongs(v@),
            TagValue::Rational(n, d) => ValueView::Rational(*n, *d),
            TagValue::Rationals(v) => ValueView::Rationals(v@),
            TagValue::SRational(n, d) => ValueView::SRational(*n, *d),
            TagValue::SRationals(v) => ValueView::SRationals(v@),
            TagValue::Single(x) => ValueView::Single(*x),
            TagValue::Singles(v) => ValueView::Singles(v@),
            TagValue::Double(x) => ValueView::Double(*x),
            TagValue::Doubles(v) => ValueView::Doubles(v@),
            TagValue::LongData => ValueView::LongData,
            TagValue::Null => ValueView::Null,
        }
    }
}

fn copy_pairs(x: &Vec<(u32, u32)>) -> (r: Vec<(u32, u32)>)
    ensures
        r@ == x@,
{
    let mut r: Vec<(u32, u32)> = Vec::new();
    let mut k: usize = 0;
    while k < x.len()
        invariant
            k <= x@.len(),
            r@ == x@.subrange(0, k as int),
        decreases x@.len() - k,
    {
        r.push(x[k]);
        k += 1;
        assert(r@ =~= x@.subrange(0, k as int));
    }
    assert(r@ =~= x@);
    r
}

fn copy_signed_pairs(x: &Vec<(i32, i32)>) -> (r: Vec<(i32, i32)>)
    ensures
        r@ == x@,
{
    let mut r: Vec<(i32, i32)> = Vec::new();
    let mut k: usize = 0;
    while k < x.len()
        invariant
            k <= x@.len(),
            r@ == x@.subrange(0, k as int),
        decreases x@.len() - k,
    {
        r.push(x[k]);
        k += 1;
        assert(r@ =~= x@.subrange(0, k as int));
    }
    assert(r@ =~= x@);
    r
}

/// A copy of `v` with the same view.
pub fn copy_value(v: &TagValue) -> (r: TagValue)
    ensures
        r@ == v@,
{
    match v {
        TagValue::Text(s) => TagValue::Text(s.clone()),
        TagValue::Bytes(x) => {
            let c = x.clone();
            assert(c@ =~= x@);
            TagValue::Bytes(c)
        },
        TagValue::SBytes(x) => {
            let c = x.clone();
            assert(c@ =~= x@);
            TagValue::SBytes(c)
        },
        TagValue::Blob(s) => TagValue::Blob(s.clone()),
        TagValue::UShort(x) => TagValue::UShort(*x),
        TagValue::UShorts(x) => {
            let c = x.clone();
            assert(c@ =~= x@);
            TagValue::UShorts(c)
        },
        TagValue::SShort(x) => TagValue::SShort(*x),
        TagValue::SShorts(x) => {
            let c = x.clone();
            assert(c@ =~= x@);
            TagValue::SShorts(c)
        },
        TagValue::ULong(x) => TagValue::ULong(*x),
        TagValue::ULongs(x) => {
            let c = x.clone();
            assert(c@ =~= x@);
            TagValue::ULongs(c)
        },
        TagValue::SLong(x) => TagValue::SLong(*x),
        TagValue::SLongs(x) => {
            let c = x.clone();
            assert(c@ =~= x@);
            TagValue::SLongs(c)
        },
        TagValue::Rational(n, d) => TagValue::Rational(*n, *d),
        TagValue::Rationals(x) => TagValue::Rationals(copy_pairs(x)),
        TagValue::SRational(n, d) => TagValue::SRational(*n, *d),
        TagValue::SRationals(x) => TagValue::SRationals(copy_signed_pairs(x)),
        TagValue::Single(x) => TagValue::Single(*x),
        TagValue::Singles(x) => {
            let c = x.clone();
            assert(c@ =~= x@);
            TagValue::Singles(c)
        },
        TagValue::Double(x) => TagValue::Double(*x),
        TagValue::Doubles(x) => {
            let c = x.clone();
            assert(c@ =~= x@);
            TagValue::Doubles(c)
        },
        TagValue::LongData => TagValue::LongData,
        TagValue::Null => TagValue::Null,
    }
}

/// Index of the first zero byte of `s` at or after `i`, or `s.len()` if none.
pub open spec fn nul_from(s: Seq<u8>, i: int) -> int
    decreases s.len() - i,
{
    if i >= s.len() {
        s.len() as int
    } else if s[i] == 0 {
        i
    } else {
        nul_from(s, i + 1)
    }
}

/// The bytes of `s` before its first zero byte.
pub open spec fn nul_trim(s: Seq<u8>) -> Seq<u8> {
    s.subrange(0, nul_from(s, 0))
}

/// Whether values of format `f` decode as text.
pub open spec fn is_text_format(f: FMT) -> bool {
    f == FMT::UNDEFINED || f == FMT::STRING || f == FMT::UTF_8
}

/// The value that the `count` components of format `f` stored at `p` decode
/// to, paired with whether it is small enough to keep in the flat index.
#[verifier::opaque]
pub open spec fn decoded_value(b: Seq<u8>, be: bool, f: FMT, p: int, count: nat) -> (ValueView, bool) {
    let n = count * format_width(f);
    let raw = b.subrange(p, p + n);
    match f {
        FMT::UNDEFINED | FMT::STRING | FMT::UTF_8 => (ValueView::Text(lossy_text(nul_trim(raw))), true),
        FMT::BYTE => if n <= INLINE_BYTES_MAX {
            (ValueView::Bytes(raw), true)
        } else {
            (ValueView::Blob(base64_of(raw)), false)
        },
        FMT::SBYTE => if n <= INLINE_BYTES_MAX {
            (ValueView::SBytes(Seq::new(n, |k: int| signed8(b[p + k]) as i8)), true)
        } else {
            (ValueView::Blob(base64_of(raw)), false)
        },
        FMT::USHORT => if count == 1 {
            (ValueView::UShort(u16_at(b, p, be)), true)
        } else {
            (ValueView::UShorts(Seq::new(count, |k: int| u16_at(b, p + 2 * k, be))), true)
        },
        FMT::SSHORT => if count == 1 {
            (ValueView::SShort(signed16(u16_at(b, p, be)) as i16), true)
        } else {
            (ValueView::SShorts(Seq::new(count, |k: int| signed16(u16_at(b, p + 2 * k, be)) as i16)), true)
        },
        FMT::ULONG => if count == 1 {
            (ValueView::ULong(u32_at(b, p, be)), true)
        } else {
            (ValueView::ULongs(Seq::new(count, |k: int| u32_at(b, p + 4 * k, be))), true)
        },
        FMT::SLONG => if count == 1 {
            (ValueView::SLong(signed32(u32_at(b, p, be)) as i32), true)
        } else {
            (ValueView::SLongs(Seq::new(count, |k: int| signed32(u32_at(b, p + 4 * k, be)) as i32)), true)
        },
        FMT::URATIONAL => if count == 1 {
            (ValueView::Rational(u32_at(b, p, be), u32_at(b, p + 4, be)), true)
        } else {
            (ValueView::Rationals(Seq::new(count, |k: int| (u32_at(b, p + 8 * k, be), u32_at(b, p + 8 * k + 4, be)))), true)
        },
        FMT::SRATIONAL => if count == 1 {
            (ValueView::SRational(signed32(u32_at(b, p, be)) as i32, signed32(u32_at(b, p + 4, be)) as i32), true)
        } else {
            (ValueView::SRationals(Seq::new(count, |k: int| (signed32(u32_at(b, p + 8 * k, be)) as i32, signed32(u32_at(b, p + 8 * k + 4, be)) as i32))), true)
        },
        FMT::SINGLE => if count == 1 {
            (ValueView::Single(u32_at(b, p, be)), true)
        } else {
            (ValueView::Singles(Seq::new(count, |k: int| u32_at(b, p + 4 * k, be))), true)
        },
        FMT::DOUBLE => if count == 1 {
            (ValueView::Double(u64_at(b, p, be)), true)
        } else {
            (ValueView::Doubles(Seq::new(count, |k: int| u64_at(b, p + 8 * k, be))), true)
        },
        FMT::NONE | FMT::NUM_FORMATS => (ValueView::Null, false),
    }
}

/// Exactly the text formats decode to text.
pub proof fn lemma_text_iff_text_format(b: Seq<u8>, be: bool, f: FMT, p: int, count: nat)
    ensures
        decoded_value(b, be, f, p, count).0 is Text <==> is_text_format(f),
{
    reveal(decoded_value);
}

fn read_i8s(b: &[u8], p: usize, count: usize) -> (r: Vec<i8>)
    requires
        p + count <= b@.len(),
    ensures
        r@ == Seq::new(count as nat, |k: int| signed8(b@[p + k]) as i8),
{
    let len = b.len();
    let mut v: Vec<i8> = Vec::new();
    let mut k: usize = 0;
    while k < count
        invariant
            k <= count,
            len == b@.len(),
            p + count <= b@.len(),
            v@ == Seq::new(k as nat, |j: int| signed8(b@[p + j]) as i8),
        decreases count - k,
    {
        v.push(to_i8(b[p + k]));
        k += 1;
        assert(v@ =~= Seq::new(k as nat, |j: int| signed8(b@[p + j]) as i8));
    }
    v
}

fn read_u16s(b: &[u8], p: usize, count: usize, be: bool) -> (r: Vec<u16>)
    requires
        p + 2 * count <= b@.len(),
    ensures
        r@ == Seq::new(count as nat, |k: int| u16_at(b@, p + 2 * k, be)),
{
    let len = b.len();
    let mut v: Vec<u16> = Vec::new();
    let mut k: usize = 0;
    while k < count
        invariant
            k <= count,
            len == b@.len(),
            p + 2 * count <= b@.len(),
            v@ == Seq::new(k as nat, |j: int| u16_at(b@, p + 2 * j, be)),
        decreases count - k,
    {
        v.push(read_u16(b, p + 2 * k, be));
        k += 1;
        assert(v@ =~= Seq::new(k as nat, |j: int| u16_at(b@, p + 2 * j, be)));
    }
    v
}

fn read_i16s(b: &[u8], p: usize, count: usize, be: bool) -> (r: Vec<i16>)
    requires
        p + 2 * count <= b@.len(),
    ensures
        r@ == Seq::new(count as nat, |k: int| signed16(u16_at(b@, p + 2 * k, be)) as i16),
{
    let len = b.len();
    let mut v: Vec<i16> = Vec::new();
    let mut k: usize = 0;
    while k < count
        invariant
            k <= count,
            len == b@.len(),
            p + 2 * count <= b@.len(),
            v@ == Seq::new(k as nat, |j: int| signed16(u16_at(b@, p + 2 * j, be)) as i16),
        decreases count - k,
    {
        v.push(to_i16(read_u16(b, p + 2 * k, be)));
        k += 1;
        assert(v@ =~= Seq::new(k as nat, |j: int| signed16(u16_at(b@, p + 2 * j, be)) as i16));
    }
    v
}

fn read_u32s(b: &[u8], p: usize, count: usize, be: bool) -> (r: Vec<u32>)
    requires
        p + 4 * count <= b@.len(),
    ensures
        r@ == Seq::new(count as nat, |k: int| u32_at(b@, p + 4 * k, be)),
{
    let len = b.len();
    let mut v: Vec<u32> = Vec::new();
    let mut k: usize = 0;
    while k < count
        invariant
            k <= count,
            len == b@.len(),
            p + 4 * count <= b@.len(),
            v@ == Seq::new(k as nat, |j: int| u32_at(b@, p + 4 * j, be)),
        decreases count - k,
    {
        v.push(read_u32(b, p + 4 * k, be));
        k += 1;
        assert(v@ =~= Seq::new(k as nat, |j: int| u32_at(b@, p + 4 * j, be)));
    }
    v
}

fn read_i32s(b: &[u8], p: usize, count: usize, be: bool) -> (r: Vec<i32>)
    requires
        p + 4 * count <= b@.len(),
    ensures
        r@ == Seq::new(count as nat, |k: int| signed32(u32_at(b@, p + 4 * k, be)) as i32),
{
    let len = b.len();
    let mut v: Vec<i32> = Vec::new();
    let mut k: usize = 0;
    while k < count
        invariant
            k <= count,
            len == b@.len(),
            p + 4 * count <= b@.len(),
            v@ == Seq::new(k as nat, |j: int| signed32(u32_at(b@, p + 4 * j, be)) as i32),
        decreases count - k,
    {
        v.push(to_i32(read_u32(b, p + 4 * k, be)));
        k += 1;
        assert(v@ =~= Seq::new(k as nat, |j: int| signed32(u32_at(b@, p + 4 * j, be)) as i32));
    }
    v
}

fn read_u64s(b: &[u8], p: usize, count: usize, be: bool) -> (r: Vec<u64>)
    requires
        p + 8 * count <= b@.len(),
    ensures
        r@ == Seq::new(count as nat, |k: int| u64_at(b@, p + 8 * k, be)),
{
    let len = b.len();
    let mut v: Vec<u64> = Vec::new();
    let mut k: usize = 0;
    while k < count
        invariant
            k <= count,
            len == b@.len(),
            p + 8 * count <= b@.len(),
            v@ == Seq::new(k as nat, |j: int| u64_at(b@, p + 8 * j, be)),
        decreases count - k,
    {
        v.push(read_u64(b, p + 8 * k, be));
        k += 1;
        assert(v@ =~= Seq::new(k as nat, |j: int| u64_at(b@, p + 8 * j, be)));
    }
    v
}

fn read_rationals(b: &[u8], p: usize, count: usize, be: bool) -> (r: Vec<(u32, u32)>)
    requires
        p + 8 * count <= b@.len(),
    ensures
        r@ == Seq::new(count as nat, |k: int| (u32_at(b@, p + 8 * k, be), u32_at(b@, p + 8 * k + 4, be))),
{
    let len = b.len();
    let mut v: Vec<(u32, u32)> = Vec::new();
    let mut k: usize = 0;
    while k < count
        invariant
            k <= count,
            len == b@.len(),
            p + 8 * count <= b@.len(),
            v@ == Seq::new(k as nat, |j: int| (u32_at(b@, p + 8 * j, be), u32_at(b@, p + 8 * j + 4, be))),
        decreases count - k,
    {
        let num = read_u32(b, p + 8 * k, be);
        let den = read_u32(b, p + 8 * k + 4, be);
        v.push((num, den));
        k += 1;
        assert(v@ =~= Seq::new(k as nat, |j: int| (u32_at(b@, p + 8 * j, be), u32_at(b@, p + 8 * j + 4, be))));
    }
    v
}

fn read_srationals(b: &[u8], p: usize, count: usize, be: bool) -> (r: Vec<(i32, i32)>)
    requires
        p + 8 * count <= b@.len(),
    ensures
        r@ == Seq::new(
            count as nat,
            |k: int| (signed32(u32_at(b@, p + 8 * k, be)) as i32, signed32(u32_at(b@, p + 8 * k + 4, be)) as i32),
        ),
{
    let len = b.len();
    let mut v: Vec<(i32, i32)> = Vec::new();
    let mut k: usize = 0;
    while k < count
        invariant
            k <= count,
            len == b@.len(),
            p + 8 * count <= b@.len(),
            v@ == Seq::new(
                k as nat,
                |j: int| (signed32(u32_at(b@, p + 8 * j, be)) as i32, signed32(u32_at(b@, p + 8 * j + 4, be)) as i32),
            ),
        decreases count - k,
    {
        let num = to_i32(read_u32(b, p + 8 * k, be));
        let den = to_i32(read_u32(b, p + 8 * k + 4, be));
        v.push((num, den));
        k += 1;
        assert(v@ =~= Seq::new(
            k as nat,
            |j: int| (signed32(u32_at(b@, p + 8 * j, be)) as i32, signed32(u32_at(b@, p + 8 * j + 4, be)) as i32),
        ));
    }
    v
}

/// Text of the bytes up to the first zero byte.
fn nul_trimmed_text(raw: &[u8]) -> (r: String)
    ensures
        r@ == lossy_text(nul_trim(raw@)),
{
    let mut j: usize = 0;
    while j < raw.len() && raw[j] != 0
        invariant
            j <= raw@.len(),
            nul_from(raw@, j as int) == nul_from(raw@, 0),
        decreases raw@.len() - j,
    {
        j += 1;
    }
    utf8_lossy(vstd::slice::slice_subrange(raw, 0, j))
}

/// Decodes the `count` components of format `f` stored at `p` (the Value
/// Decoder), and says whether the value is small enough for the flat index.
pub fn decode_value(b: &[u8], be: bool, f: FMT, p: usize, components: u32) -> (r: (TagValue, bool))
    requires
        f != FMT::NUM_FORMATS,
        p + components * format_width(f) <= b@.len(),
    ensures
        (r.0@, r.1) == decoded_value(b@, be, f, p as int, components as nat),
{
    reveal(decoded_value);
    let len = b.len();
    assert(p + components * format_width(f) <= len);
    let count = components as usize;
    match f {
        FMT::UNDEFINED | FMT::STRING | FMT::UTF_8 => {
            let raw = vstd::slice::slice_subrange(b, p, p + count);
            (TagValue::Text(nul_trimmed_text(raw)), true)
        },
        FMT::BYTE => {
            let raw = vstd::slice::slice_subrange(b, p, p + count);
            if count <= INLINE_BYTES_MAX {
                (TagValue::Bytes(vstd::slice::slice_to_vec(raw)), true)
            } else {
                (TagValue::Blob(base64_encode(raw)), false)
            }
        },
        FMT::SBYTE => {
            if count <= INLINE_BYTES_MAX {
                (TagValue::SBytes(read_i8s(b, p, count)), true)
            } else {
                let raw = vstd::slice::slice_subrange(b, p, p + count);
                (TagValue::Blob(base64_encode(raw)), false)
            }
        },
        FMT::USHORT => if count == 1 {
            (TagValue::UShort(read_u16(b, p, be)), true)
        } else {
            (TagValue::UShorts(read_u16s(b, p, count, be)), true)
        },
        FMT::SSHORT => if count == 1 {
            (TagValue::SShort(to_i16(read_u16(b, p, be))), true)
        } else {
            (TagValue::SShorts(read_i16s(b, p, count, be)), true)
        },
        FMT::ULONG => if count == 1 {
            (TagValue::ULong(read_u32(b, p, be)), true)
        } else {
            (TagValue::ULongs(read_u32s(b, p, count, be)), true)
        },
        FMT::SLONG => if count == 1 {
            (TagValue::SLong(to_i32(read_u32(b, p, be))), true)
        } else {
            (TagValue::SLongs(read_i32s(b, p, count, be)), true)
        },
        FMT::URATIONAL => if count == 1 {
            (TagValue::Rational(read_u32(b, p, be), read_u32(b, p + 4, be)), true)
        } else {
            (TagValue::Rationals(read_rationals(b, p, count, be)), true)
        },
        FMT::SRATIONAL => if count == 1 {
            (TagValue::SRational(to_i32(read_u32(b, p, be)), to_i32(read_u32(b, p + 4, be))), true)
        } else {
            (TagValue::SRationals(read_srationals(b, p, count, be)), true)
        },
        FMT::SINGLE => if count == 1 {
            (TagValue::Single(read_u32(b, p, be)), true)
        } else {
            (TagValue::Singles(read_u32s(b, p, count, be)), true)
        },
        FMT::DOUBLE => if count == 1 {
            (TagValue::Double(read_u64(b, p, be)), true)
        } else {
            (TagValue::Doubles(read_u64s(b, p, count, be)), true)
        },
        _ => (TagValue::Null, false),
    }
}

} // verus!
