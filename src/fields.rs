use vstd::prelude::*;
use vstd::string::StrSliceExecFns;
use crate::block::ExifBlock;
use crate::decode::{entries_view, EntryView, RecordView, TagRecord};
use crate::index::lookup_index;
use crate::tags::FMT;
use crate::text::{decimal, decimal_string, digit_char};
use crate::value::{TagValue, ValueView};

verus! {

/// An exact signed fraction; `den` is positive.
#[derive(Debug, Clone, Copy, PartialEq, Eq, Structural)]
pub struct Ratio {
    pub num: i128,
    pub den: i128,
}

/// Decimal text of a signed integer.
pub open spec fn signed_decimal(x: int) -> Seq<char> {
    if x < 0 {
        seq!['-'] + decimal((-x) as nat)
    } else {
        decimal(x as nat)
    }
}

/// The integers of `v` in decimal, separated by commas.
pub open spec fn joined(v: Seq<int>) -> Seq<char>
    decreases v.len(),
{
    if v.len() == 0 {
        Seq::empty()
    } else if v.len() == 1 {
        signed_decimal(v[0])
    } else {
        joined(v.drop_last()) + seq![','] + signed_decimal(v.last())
    }
}

/// A bracketed, comma-separated list of the integers of `v`.
pub open spec fn list_text(v: Seq<int>) -> Seq<char> {
    seq!['['] + joined(v) + seq![']']
}

/// `100 * n / d` rounded to the nearest integer, ties to even.
pub open spec fn hundredths(n: nat, d: nat) -> nat {
    let q = (100 * n) / d;
    let rem = (100 * n) % d;
    if 2 * rem > d || (2 * rem == d && q % 2 == 1) {
        q + 1
    } else {
        q
    }
}

/// `n / d` with two decimal places.
pub open spec fn fixed2(n: nat, d: nat) -> Seq<char> {
    let q = hundredths(n, d);
    decimal(q / 100) + seq!['.', digit_char((q % 100) / 10), digit_char(q % 10)]
}

pub open spec fn ints_u8(v: Seq<u8>) -> Seq<int> {
    v.map_values(|x: u8| x as int)
}

pub open spec fn ints_i8(v: Seq<i8>) -> Seq<int> {
    v.map_values(|x: i8| x as int)
}

pub open spec fn ints_u16(v: Seq<u16>) -> Seq<int> {
    v.map_values(|x: u16| x as int)
}

pub open spec fn ints_i16(v: Seq<i16>) -> Seq<int> {
    v.map_values(|x: i16| x as int)
}

pub open spec fn ints_u32(v: Seq<u32>) -> Seq<int> {
    v.map_values(|x: u32| x as int)
}

pub open spec fn ints_i32(v: Seq<i32>) -> Seq<int> {
    v.map_values(|x: i32| x as int)
}

/// Display text of a record: text as it is, integers in decimal (lists in
/// brackets), a single rational as its quotient to two decimals; `None` for
/// anything else or a zero denominator.
pub open spec fn field_text(r: RecordView) -> Option<Seq<char>> {
    match r.format {
        FMT::STRING | FMT::UNDEFINED | FMT::UTF_8 => match r.value {
            ValueView::Text(t) => Some(t),
            _ => None,
        },
        FMT::BYTE | FMT::SBYTE | FMT::USHORT | FMT::SSHORT | FMT::ULONG | FMT::SLONG => match r.value {
            ValueView::UShort(x) => Some(decimal(x as nat)),
            ValueView::SShort(x) => Some(signed_decimal(x as int)),
            ValueView::ULong(x) => Some(decimal(x as nat)),
            ValueView::SLong(x) => Some(signed_decimal(x as int)),
            ValueView::Bytes(v) => Some(list_text(ints_u8(v))),
            ValueView::SBytes(v) => Some(list_text(ints_i8(v))),
            ValueView::UShorts(v) => Some(list_text(ints_u16(v))),
            ValueView::SShorts(v) => Some(list_text(ints_i16(v))),
            ValueView::ULongs(v) => Some(list_text(ints_u32(v))),
            ValueView::SLongs(v) => Some(list_text(ints_i32(v))),
            ValueView::LongData => Some("long data"@),
            _ => None,
        },
        FMT::URATIONAL => match r.value {
            ValueView::Rational(n, d) => if d == 0 {
                None
            } else {
                Some(fixed2(n as nat, d as nat))
            },
            _ => None,
        },
        FMT::SRATIONAL => match r.value {
            ValueView::SRational(n, d) => if d == 0 {
                None
            } else {
                Some(signed_fixed2(n as int, d as int))
            },
            _ => None,
        },
        _ => None,
    }
}

/// The pairs of `v` as integers.
pub open spec fn pairs_u32(v: Seq<(u32, u32)>) -> Seq<(int, int)> {
    v.map_values(|x: (u32, u32)| (x.0 as int, x.1 as int))
}

/// The pairs of `v` as integers.
pub open spec fn pairs_i32(v: Seq<(i32, i32)>) -> Seq<(int, int)> {
    v.map_values(|x: (i32, i32)| (x.0 as int, x.1 as int))
}

/// Degrees, minutes and seconds (three rationals) as one fraction of degrees.
pub open spec fn dms(v: Seq<(int, int)>) -> (int, int) {
    let (n0, d0) = (v[0].0, v[0].1);
    let (n1, d1) = (v[1].0, v[1].1);
    let (n2, d2) = (v[2].0, v[2].1);
    (n0 * d1 * d2 * 3600 + n1 * d0 * d2 * 60 + n2 * d0 * d1, d0 * d1 * d2 * 3600)
}

/// The same fraction with a positive denominator.
pub open spec fn positive_den(q: (int, int)) -> (int, int) {
    if q.1 < 0 {
        (-q.0, -q.1)
    } else {
        q
    }
}

/// `n / d` with two decimals, with a minus sign when the quotient is negative.
pub open spec fn signed_fixed2(n: int, d: int) -> Seq<char> {
    let a = if n < 0 { -n } else { n };
    let b = if d < 0 { -d } else { d };
    if n != 0 && ((n < 0) != (d < 0)) {
        seq!['-'] + fixed2(a as nat, b as nat)
    } else {
        fixed2(a as nat, b as nat)
    }
}

/// Numeric value of a record as a fraction: a single integer, a single
/// rational, or three rationals read as degrees, minutes and seconds; `None`
/// for anything else or a zero denominator.
pub open spec fn num_value(r: RecordView) -> Option<(int, int)> {
    match r.format {
        FMT::BYTE | FMT::USHORT | FMT::ULONG => match r.value {
            ValueView::UShort(x) => Some((x as int, 1)),
            ValueView::ULong(x) => Some((x as int, 1)),
            _ => None,
        },
        FMT::SBYTE | FMT::SSHORT | FMT::SLONG => match r.value {
            ValueView::SShort(x) => Some((x as int, 1)),
            ValueView::SLong(x) => Some((x as int, 1)),
            _ => None,
        },
        FMT::URATIONAL => match r.value {
            ValueView::Rational(n, d) => if d == 0 {
                None
            } else {
                Some((n as int, d as int))
            },
            ValueView::Rationals(v) => if v.len() == 3 && v[0].1 != 0 && v[1].1 != 0 && v[2].1 != 0 {
                Some(dms(pairs_u32(v)))
            } else {
                None
            },
            _ => None,
        },
        FMT::SRATIONAL => match r.value {
            ValueView::SRational(n, d) => if d == 0 {
                None
            } else {
                Some(positive_den((n as int, d as int)))
            },
            ValueView::SRationals(v) => if v.len() == 3 && v[0].1 != 0 && v[1].1 != 0 && v[2].1 != 0 {
                Some(positive_den(dms(pairs_i32(v))))
            } else {
                None
            },
            _ => None,
        },
        _ => None,
    }
}

/// Display text of the first entry named exactly `name`.
pub open spec fn text_field_of(es: Seq<EntryView>, name: Seq<char>) -> Option<Seq<char>> {
    match lookup_index(es, name, true, 0) {
        None => None,
        Some(j) => field_text(es[j].value),
    }
}

/// Numeric value of the first entry named exactly `name`.
pub open spec fn num_field_of(es: Seq<EntryView>, name: Seq<char>) -> Option<(int, int)> {
    match lookup_index(es, name, true, 0) {
        None => None,
        Some(j) => num_value(es[j].value),
    }
}

/// A coordinate read from the entry `coord`, negated when the text of the
/// entry `reference` holds `negative`.
pub open spec fn coordinate_of(es: Seq<EntryView>, coord: Seq<char>, reference: Seq<char>, negative: char) -> Option<(int, int)> {
    match (num_field_of(es, coord), text_field_of(es, reference)) {
        (Some((n, d)), Some(t)) => Some(if t.contains(negative) { (-n, d) } else { (n, d) }),
        _ => None,
    }
}

fn signed_decimal_string(x: i64) -> (r: String)
    requires
        x > i64::MIN,
    ensures
        r@ == signed_decimal(x as int),
{
    if x < 0 {
        let mut s = String::from_str("-");
        proof {
            reveal_strlit("-");
        }
        let d = decimal_string((-x) as u64);
        s.append(d.as_str());
        s
    } else {
        decimal_string(x as u64)
    }
}

/// Bracketed list text of `v`, whose items are above `i64::MIN`.
fn list_string(v: &Vec<i64>) -> (r: String)
    requires
        forall|k: int| 0 <= k < v@.len() ==> v@[k] > i64::MIN,
    ensures
        r@ == list_text(v@.map_values(|x: i64| x as int)),
{
    let ghost w = v@.map_values(|x: i64| x as int);
    let mut s = String::from_str("[");
    proof {
        reveal_strlit("[");
        reveal_strlit(",");
        reveal_strlit("]");
        assert(w.subrange(0, 0) =~= Seq::<int>::empty());
    }
    let mut k: usize = 0;
    while k < v.len()
        invariant
            k <= v@.len(),
            w == v@.map_values(|x: i64| x as int),
            forall|j: int| 0 <= j < v@.len() ==> v@[j] > i64::MIN,
            s@ == seq!['['] + joined(w.subrange(0, k as int)),
        decreases v@.len() - k,
    {
        let ghost before = s@;
        if k > 0 {
            s.append(",");
        }
        let d = signed_decimal_string(v[k]);
        s.append(d.as_str());
        proof {
            reveal_strlit(",");
            let next = w.subrange(0, k + 1);
            assert(next.drop_last() =~= w.subrange(0, k as int));
            assert(next.last() == w[k as int]);
            assert(s@ =~= seq!['['] + joined(next));
        }
        k += 1;
    }
    s.append("]");
    proof {
        reveal_strlit("]");
        assert(w.subrange(0, v@.len() as int) =~= w);
        assert(s@ =~= list_text(w));
    }
    s
}

fn widen_u8(v: &Vec<u8>) -> (r: Vec<i64>)
    ensures
        r@.map_values(|x: i64| x as int) == ints_u8(v@),
        forall|k: int| 0 <= k < r@.len() ==> r@[k] > i64::MIN,
{
    let mut r: Vec<i64> = Vec::new();
    let mut k: usize = 0;
    while k < v.len()
        invariant
            k <= v@.len(),
            r@.len() == k,
            forall|j: int| 0 <= j < k ==> r@[j] as int == v@[j] as int,
        decreases v@.len() - k,
    {
        r.push(v[k] as i64);
        k += 1;
    }
    assert(r@.map_values(|x: i64| x as int) =~= ints_u8(v@));
    r
}

fn widen_i8(v: &Vec<i8>) -> (r: Vec<i64>)
    ensures
        r@.map_values(|x: i64| x as int) == ints_i8(v@),
        forall|k: int| 0 <= k < r@.len() ==> r@[k] > i64::MIN,
{
    let mut r: Vec<i64> = Vec::new();
    let mut k: usize = 0;
    while k < v.len()
        invariant
            k <= v@.len(),
            r@.len() == k,
            forall|j: int| 0 <= j < k ==> r@[j] as int == v@[j] as int,
        decreases v@.len() - k,
    {
        r.push(v[k] as i64);
        k += 1;
    }
    assert(r@.map_values(|x: i64| x as int) =~= ints_i8(v@));
    r
}

fn widen_u16(v: &Vec<u16>) -> (r: Vec<i64>)
    ensures
        r@.map_values(|x: i64| x as int) == ints_u16(v@),
        forall|k: int| 0 <= k < r@.len() ==> r@[k] > i64::MIN,
{
    let mut r: Vec<i64> = Vec::new();
    let mut k: usize = 0;
    while k < v.len()
        invariant
            k <= v@.len(),
            r@.len() == k,
            forall|j: int| 0 <= j < k ==> r@[j] as int == v@[j] as int,
        decreases v@.len() - k,
    {
        r.push(v[k] as i64);
        k += 1;
    }
    assert(r@.map_values(|x: i64| x as int) =~= ints_u16(v@));
    r
}

fn widen_i16(v: &Vec<i16>) -> (r: Vec<i64>)
    ensures
        r@.map_values(|x: i64| x as int) == ints_i16(v@),
        forall|k: int| 0 <= k < r@.len() ==> r@[k] > i64::MIN,
{
    let mut r: Vec<i64> = Vec::new();
    let mut k: usize = 0;
    while k < v.len()
        invariant
            k <= v@.len(),
            r@.len() == k,
            forall|j: int| 0 <= j < k ==> r@[j] as int == v@[j] as int,
        decreases v@.len() - k,
    {
        r.push(v[k] as i64);
        k += 1;
    }
    assert(r@.map_values(|x: i64| x as int) =~= ints_i16(v@));
    r
}

fn widen_u32(v: &Vec<u32>) -> (r: Vec<i64>)
    ensures
        r@.map_values(|x: i64| x as int) == ints_u32(v@),
        forall|k: int| 0 <= k < r@.len() ==> r@[k] > i64::MIN,
{
    let mut r: Vec<i64> = Vec::new();
    let mut k: usize = 0;
    while k < v.len()
        invariant
            k <= v@.len(),
            r@.len() == k,
            forall|j: int| 0 <= j < k ==> r@[j] as int == v@[j] as int,
        decreases v@.len() - k,
    {
        r.push(v[k] as i64);
        k += 1;
    }
    assert(r@.map_values(|x: i64| x as int) =~= ints_u32(v@));
    r
}

fn widen_i32(v: &Vec<i32>) -> (r: Vec<i64>)
    ensures
        r@.map_values(|x: i64| x as int) == ints_i32(v@),
        forall|k: int| 0 <= k < r@.len() ==> r@[k] > i64::MIN,
{
    let mut r: Vec<i64> = Vec::new();
    let mut k: usize = 0;
    while k < v.len()
        invariant
            k <= v@.len(),
            r@.len() == k,
            forall|j: int| 0 <= j < k ==> r@[j] as int == v@[j] as int,
        decreases v@.len() - k,
    {
        r.push(v[k] as i64);
        k += 1;
    }
    assert(r@.map_values(|x: i64| x as int) =~= ints_i32(v@));
    r
}

/// `n / d` with two decimals, rounded half to even.
pub fn fixed2_string(n: u32, d: u32) -> (r: String)
    requires
        d != 0,
    ensures
        r@ == fixed2(n as nat, d as nat),
{
    let scaled = 100 * n as u64;
    let q0 = scaled / d as u64;
    let rem = scaled % d as u64;
    let q = if 2 * rem > d as u64 || (2 * rem == d as u64 && q0 % 2 == 1) { q0 + 1 } else { q0 };
    let mut s = decimal_string(q / 100);
    s.append(".");
    let tens = decimal_string((q % 100) / 10);
    let units = decimal_string(q % 10);
    s.append(tens.as_str());
    s.append(units.as_str());
    proof {
        reveal_strlit(".");
        assert(s@ =~= fixed2(n as nat, d as nat));
    }
    s
}

fn record_text(r: &TagRecord) -> (t: Option<String>)
    ensures
        match field_text(r@) {
            None => t is None,
            Some(x) => t matches Some(y) && y@ == x,
        },
{
    match r.format {
        FMT::STRING | FMT::UNDEFINED | FMT::UTF_8 => match &r.value {
            TagValue::Text(t) => Some(t.clone()),
            _ => None,
        },
        FMT::BYTE | FMT::SBYTE | FMT::USHORT | FMT::SSHORT | FMT::ULONG | FMT::SLONG => match &r.value {
            TagValue::UShort(x) => Some(decimal_string(*x as u64)),
            TagValue::SShort(x) => Some(signed_decimal_string(*x as i64)),
            TagValue::ULong(x) => Some(decimal_string(*x as u64)),
            TagValue::SLong(x) => Some(signed_decimal_string(*x as i64)),
            TagValue::Bytes(v) => Some(list_string(&widen_u8(v))),
            TagValue::SBytes(v) => Some(list_string(&widen_i8(v))),
            TagValue::UShorts(v) => Some(list_string(&widen_u16(v))),
            TagValue::SShorts(v) => Some(list_string(&widen_i16(v))),
            TagValue::ULongs(v) => Some(list_string(&widen_u32(v))),
            TagValue::SLongs(v) => Some(list_string(&widen_i32(v))),
            TagValue::LongData => Some(String::from_str("long data")),
            _ => None,
        },
        FMT::URATIONAL => match &r.value {
            TagValue::Rational(n, d) => if *d == 0 {
                None
            } else {
                Some(fixed2_string(*n, *d))
            },
            _ => None,
        },
        FMT::SRATIONAL => match &r.value {
            TagValue::SRational(n, d) => if *d == 0 {
                None
            } else {
                Some(signed_fixed2_string(*n, *d))
            },
            _ => None,
        },
        _ => None,
    }
}

fn magnitude(x: i32) -> (r: u32)
    ensures
        r as int == if x < 0 { -(x as int) } else { x as int },
{
    if x < 0 {
        (-(x as i64)) as u32
    } else {
        x as u32
    }
}

/// `n / d` with two decimals and the quotient's sign.
fn signed_fixed2_string(n: i32, d: i32) -> (r: String)
    requires
        d != 0,
    ensures
        r@ == signed_fixed2(n as int, d as int),
{
    let body = fixed2_string(magnitude(n), magnitude(d));
    if n != 0 && ((n < 0) != (d < 0)) {
        let mut s = String::from_str("-");
        proof {
            reveal_strlit("-");
        }
        s.append(body.as_str());
        s
    } else {
        body
    }
}

fn record_number(r: &TagRecord) -> (q: Option<Ratio>)
    ensures
        match num_value(r@) {
            None => q is None,
            Some((n, d)) => q matches Some(x) && x.num == n && x.den == d,
        },
{
    match r.format {
        FMT::BYTE | FMT::USHORT | FMT::ULONG => match &r.value {
            TagValue::UShort(x) => Some(Ratio { num: *x as i128, den: 1 }),
            TagValue::ULong(x) => Some(Ratio { num: *x as i128, den: 1 }),
            _ => None,
        },
        FMT::SBYTE | FMT::SSHORT | FMT::SLONG => match &r.value {
            TagValue::SShort(x) => Some(Ratio { num: *x as i128, den: 1 }),
            TagValue::SLong(x) => Some(Ratio { num: *x as i128, den: 1 }),
            _ => None,
        },
        FMT::URATIONAL => match &r.value {
            TagValue::Rational(n, d) => if *d == 0 {
                None
            } else {
                Some(Ratio { num: *n as i128, den: *d as i128 })
            },
            TagValue::Rationals(v) => if v.len() == 3 && v[0].1 != 0 && v[1].1 != 0 && v[2].1 != 0 {
                proof {
                    assert(pairs_u32(v@) =~= seq![
                        (v@[0].0 as int, v@[0].1 as int),
                        (v@[1].0 as int, v@[1].1 as int),
                        (v@[2].0 as int, v@[2].1 as int),
                    ]);
                }
                Some(dms_ratio(
                    v[0].0 as i64,
                    v[0].1 as i64,
                    v[1].0 as i64,
                    v[1].1 as i64,
                    v[2].0 as i64,
                    v[2].1 as i64,
                ))
            } else {
                None
            },
            _ => None,
        },
        FMT::SRATIONAL => match &r.value {
            TagValue::SRational(n, d) => if *d == 0 {
                None
            } else {
                Some(with_positive_den(Ratio { num: *n as i128, den: *d as i128 }))
            },
            TagValue::SRationals(v) => if v.len() == 3 && v[0].1 != 0 && v[1].1 != 0 && v[2].1 != 0 {
                proof {
                    assert(pairs_i32(v@) =~= seq![
                        (v@[0].0 as int, v@[0].1 as int),
                        (v@[1].0 as int, v@[1].1 as int),
                        (v@[2].0 as int, v@[2].1 as int),
                    ]);
                }
                Some(with_positive_den(dms_ratio(
                    v[0].0 as i64,
                    v[0].1 as i64,
                    v[1].0 as i64,
                    v[1].1 as i64,
                    v[2].0 as i64,
                    v[2].1 as i64,
                )))
            } else {
                None
            },
            _ => None,
        },
        _ => None,
    }
}

/// Bound on the parts of a fraction the accessors compute.
pub open spec fn ratio_bounded(q: (int, int)) -> bool {
    -0x1_0000_0000_0000_0000_0000_0000_0000 < q.0 < 0x1_0000_0000_0000_0000_0000_0000_0000
        && -0x1_0000_0000_0000_0000_0000_0000_0000 < q.1 < 0x1_0000_0000_0000_0000_0000_0000_0000
}

proof fn lemma_product_bound(a: int, b: int, c: int)
    requires
        -0x1_0000_0000 <= a <= 0x1_0000_0000,
        -0x1_0000_0000 <= b <= 0x1_0000_0000,
        -0x1_0000_0000 <= c <= 0x1_0000_0000,
    ensures
        -0x1_0000_0000_0000_0000 <= a * b <= 0x1_0000_0000_0000_0000,
        -0x1_0000_0000_0000_0000_0000_0000 <= a * b * c <= 0x1_0000_0000_0000_0000_0000_0000,
{
    let m: int = 0x1_0000_0000;
    assert(-m * m <= a * b <= m * m) by (nonlinear_arith)
        requires
            -m <= a <= m,
            -m <= b <= m,
            0 <= m,
    ;
    assert(-m * m * m <= (a * b) * c <= m * m * m) by (nonlinear_arith)
        requires
            -m * m <= a * b <= m * m,
            -m <= c <= m,
            0 <= m,
    ;
}

/// Three integer pairs whose parts lie within 32 bits give a bounded fraction.
proof fn lemma_dms_bounded(v: Seq<(int, int)>)
    requires
        v.len() == 3,
        forall|k: int|
            0 <= k < 3 ==> -0x1_0000_0000 <= #[trigger] v[k].0 <= 0x1_0000_0000 && -0x1_0000_0000 <= v[k].1
                <= 0x1_0000_0000,
    ensures
        ratio_bounded(dms(v)),
        ratio_bounded(positive_den(dms(v))),
{
    let (n0, d0) = (v[0].0, v[0].1);
    let (n1, d1) = (v[1].0, v[1].1);
    let (n2, d2) = (v[2].0, v[2].1);
    lemma_product_bound(n0, d1, d2);
    lemma_product_bound(n1, d0, d2);
    lemma_product_bound(n2, d0, d1);
    lemma_product_bound(d0, d1, d2);
}

fn dms_ratio(n0: i64, d0: i64, n1: i64, d1: i64, n2: i64, d2: i64) -> (r: Ratio)
    requires
        -0x1_0000_0000 <= n0 <= 0x1_0000_0000,
        -0x1_0000_0000 <= d0 <= 0x1_0000_0000,
        -0x1_0000_0000 <= n1 <= 0x1_0000_0000,
        -0x1_0000_0000 <= d1 <= 0x1_0000_0000,
        -0x1_0000_0000 <= n2 <= 0x1_0000_0000,
        -0x1_0000_0000 <= d2 <= 0x1_0000_0000,
    ensures
        (r.num as int, r.den as int) == dms(
            seq![(n0 as int, d0 as int), (n1 as int, d1 as int), (n2 as int, d2 as int)],
        ),
        ratio_bounded((r.num as int, r.den as int)),
{
    let ghost v = seq![(n0 as int, d0 as int), (n1 as int, d1 as int), (n2 as int, d2 as int)];
    proof {
        lemma_product_bound(n0 as int, d1 as int, d2 as int);
        lemma_product_bound(n1 as int, d0 as int, d2 as int);
        lemma_product_bound(n2 as int, d0 as int, d1 as int);
        lemma_product_bound(d0 as int, d1 as int, d2 as int);
        lemma_dms_bounded(v);
    }
    let (n0, d0, n1, d1, n2, d2) = (n0 as i128, d0 as i128, n1 as i128, d1 as i128, n2 as i128, d2 as i128);
    let num = n0 * d1 * d2 * 3600 + n1 * d0 * d2 * 60 + n2 * d0 * d1;
    let den = d0 * d1 * d2 * 3600;
    Ratio { num, den }
}

fn with_positive_den(q: Ratio) -> (r: Ratio)
    requires
        ratio_bounded((q.num as int, q.den as int)),
    ensures
        (r.num as int, r.den as int) == positive_den((q.num as int, q.den as int)),
        ratio_bounded((r.num as int, r.den as int)),
{
    if q.den < 0 {
        Ratio { num: -q.num, den: -q.den }
    } else {
        q
    }
}

fn contains_char(s: &String, c: char) -> (r: bool)
    ensures
        r == s@.contains(c),
{
    let t = s.as_str();
    let n = t.unicode_len();
    let mut i: usize = 0;
    while i < n
        invariant
            t@ == s@,
            n == s@.len(),
            i <= n,
            forall|k: int| 0 <= k < i ==> s@[k] != c,
        decreases n - i,
    {
        if t.get_char(i) == c {
            return true;
        }
        i += 1;
    }
    false
}

impl ExifBlock {
    /// Display text of the first entry named exactly `fieldname`.
    pub fn get_field(&self, fieldname: &str) -> (r: Option<String>)
        ensures
            match text_field_of(entries_view(self.entry_data_vector@), fieldname@) {
                None => r is None,
                Some(t) => r matches Some(s) && s@ == t,
            },
    {
        match self.find(fieldname, 0, true) {
            None => None,
            Some(rec) => record_text(rec),
        }
    }

    /// Numeric value of the first entry named exactly `fieldname`, as an exact fraction.
    pub fn get_num_field(&self, fieldname: &str) -> (r: Option<Ratio>)
        ensures
            match num_field_of(entries_view(self.entry_data_vector@), fieldname@) {
                None => r is None,
                Some((n, d)) => r matches Some(q) && q.num == n && q.den == d,
            },
    {
        match self.find(fieldname, 0, true) {
            None => None,
            Some(rec) => record_number(rec),
        }
    }

    /// The coordinate in entry `coord`, negated when the display text of
    /// entry `reference` holds `negative` (`'S'` for latitudes, `'W'` for
    /// longitudes).
    pub fn gps_coordinate(&self, coord: &str, reference: &str, negative: char) -> (r: Option<Ratio>)
        ensures
            match coordinate_of(entries_view(self.entry_data_vector@), coord@, reference@, negative) {
                None => r is None,
                Some((n, d)) => r matches Some(q) && q.num == n && q.den == d,
            },
    {
        let value = self.get_num_field(coord);
        let text = self.get_field(reference);
        match (value, text) {
            (Some(q), Some(t)) => {
                if contains_char(&t, negative) {
                    proof {
                        lemma_num_field_bounded(entries_view(self.entry_data_vector@), coord@);
                    }
                    Some(Ratio { num: -q.num, den: q.den })
                } else {
                    Some(q)
                }
            },
            _ => None,
        }
    }

    /// Latitude and longitude in degrees, when both coordinates and both
    /// references are present.
    pub fn gps_position(&self) -> (r: Option<(Ratio, Ratio)>)
        ensures
            match (
                coordinate_of(entries_view(self.entry_data_vector@), "GPSLatitude"@, "GPSLatitudeRef"@, 'S'),
                coordinate_of(entries_view(self.entry_data_vector@), "GPSLongitude"@, "GPSLongitudeRef"@, 'W'),
            ) {
                (Some((la, lad)), Some((lo, lod))) => r matches Some((a, b)) && a.num == la && a.den == lad
                    && b.num == lo && b.den == lod,
                _ => r is None,
            },
    {
        let la = self.gps_coordinate("GPSLatitude", "GPSLatitudeRef", 'S');
        let lo = self.gps_coordinate("GPSLongitude", "GPSLongitudeRef", 'W');
        match (la, lo) {
            (Some(a), Some(b)) => Some((a, b)),
            _ => None,
        }
    }
}

proof fn lemma_num_field_bounded(es: Seq<EntryView>, name: Seq<char>)
    ensures
        num_field_of(es, name) matches Some(q) ==> ratio_bounded(q),
{
    if let Some(j) = lookup_index(es, name, true, 0) {
        let r = es[j].value;
        match r.value {
            ValueView::Rationals(v) => {
                if r.format == FMT::URATIONAL && v.len() == 3 {
                    lemma_dms_bounded(pairs_u32(v));
                }
            },
            ValueView::SRationals(v) => {
                if r.format == FMT::SRATIONAL && v.len() == 3 {
                    lemma_dms_bounded(pairs_i32(v));
                }
            },
            _ => {},
        }
    }
}

} // verus!
