use vstd::prelude::*;

verus! {

/// Background drawn behind a transparent image, cycled by the user.
#[derive(Debug, PartialEq, Eq, Structural, Clone, Copy)]
pub enum BackgroundStyle {
    Black,
    Gray,
    White,
    Green,
    DarkBright,
    GreenMagenta,
    BlackBrown,
}

/// The numeric code of each style, in cycling order.
pub open spec fn style_code(s: BackgroundStyle) -> int {
    match s {
        BackgroundStyle::Black => 0,
        BackgroundStyle::Gray => 1,
        BackgroundStyle::White => 2,
        BackgroundStyle::Green => 3,
        BackgroundStyle::DarkBright => 4,
        BackgroundStyle::GreenMagenta => 5,
        BackgroundStyle::BlackBrown => 6,
    }
}

impl BackgroundStyle {
    /// The next style in the cycle; the last one wraps to the first.
    pub fn inc(self) -> (r: BackgroundStyle)
        ensures
            style_code(r) == (style_code(self) + 1) % 7,
    {
        match self {
            BackgroundStyle::Black => BackgroundStyle::Gray,
            BackgroundStyle::Gray => BackgroundStyle::White,
            BackgroundStyle::White => BackgroundStyle::Green,
            BackgroundStyle::Green => BackgroundStyle::DarkBright,
            BackgroundStyle::DarkBright => BackgroundStyle::GreenMagenta,
            BackgroundStyle::GreenMagenta => BackgroundStyle::BlackBrown,
            BackgroundStyle::BlackBrown => BackgroundStyle::Black,
        }
    }

    /// The style with code `i`; any code outside 1..=6 gives `Black`.
    pub fn from(i: i32) -> (r: BackgroundStyle)
        ensures
            1 <= i <= 6 ==> style_code(r) == i,
            !(1 <= i <= 6) ==> r == BackgroundStyle::Black,
    {
        match i {
            1 => BackgroundStyle::Gray,
            2 => BackgroundStyle::White,
            3 => BackgroundStyle::Green,
            4 => BackgroundStyle::DarkBright,
            5 => BackgroundStyle::GreenMagenta,
            6 => BackgroundStyle::BlackBrown,
            _ => BackgroundStyle::Black,
        }
    }

    /// The numeric code of this style.
    pub fn to(self) -> (r: i32)
        ensures
            r == style_code(self),
    {
        match self {
            BackgroundStyle::Black => 0,
            BackgroundStyle::Gray => 1,
            BackgroundStyle::White => 2,
            BackgroundStyle::Green => 3,
            BackgroundStyle::DarkBright => 4,
            BackgroundStyle::GreenMagenta => 5,
            BackgroundStyle::BlackBrown => 6,
        }
    }
}

/// Rotation applied to the displayed image, in quarter turns.
#[derive(Debug, PartialEq, Eq, Structural, Clone, Copy)]
pub enum Rotate {
    Rotate0,
    Rotate90,
    Rotate180,
    Rotate270,
}

/// Quarter turns of a rotation.
pub open spec fn quarter_turns(r: Rotate) -> int {
    match r {
        Rotate::Rotate0 => 0,
        Rotate::Rotate90 => 1,
        Rotate::Rotate180 => 2,
        Rotate::Rotate270 => 3,
    }
}

impl Rotate {
    /// Number of quarter turns, 0..=3.
    pub fn to_u8(self) -> (r: u8)
        ensures
            r == quarter_turns(self),
    {
        match self {
            Rotate::Rotate0 => 0,
            Rotate::Rotate90 => 1,
            Rotate::Rotate180 => 2,
            Rotate::Rotate270 => 3,
        }
    }

    /// The rotation by `v` quarter turns, modulo a full turn.
    pub fn from_u8(v: u8) -> (r: Rotate)
        ensures
            quarter_turns(r) == v % 4,
    {
        match v % 4 {
            0 => Rotate::Rotate0,
            1 => Rotate::Rotate90,
            2 => Rotate::Rotate180,
            _ => Rotate::Rotate270,
        }
    }

    /// Both rotations applied one after the other.
    pub fn add(self, other: Rotate) -> (r: Rotate)
        ensures
            quarter_turns(r) == (quarter_turns(self) + quarter_turns(other)) % 4,
    {
        Rotate::from_u8(self.to_u8() + other.to_u8())
    }
}

/// Order of the image list of a folder.
#[derive(Debug, PartialEq, Eq, Structural, Clone, Copy)]
pub enum SortDir {
    Name,
    Ext,
    Date,
    Size,
}

/// File format an image is saved in.
#[derive(Debug, PartialEq, Eq, Structural, Clone, Copy)]
pub enum SaveFormat {
    Jpeg,
    Webp,
    Gif,
    Png,
    Bmp,
    Tif,
}

/// Options of one save.
#[derive(Debug, Clone)]
pub struct SaveSettings {
    pub full_path: String,
    pub saveformat: SaveFormat,
    /// JPEG and WebP quality, 1..=100.
    pub quality: u8,
    /// Lossless WebP.
    pub lossless: bool,
    pub can_include_exif: bool,
    pub include_exif: bool,
}

/// Points per axis of the identity colour lookup table.
pub const LUT_SIZE: usize = 33;

/// Channel level of lattice point `v` of the identity table: `v / 32` of full scale, rounded down.
pub open spec fn lut_level(v: int) -> u8 {
    (v * 255 / 32) as u8
}

/// Byte `k` of the identity table: RGBA texels with red varying fastest,
/// then green, then blue; alpha is opaque.
pub open spec fn identity_lut_byte(k: int) -> u8 {
    let p = k / 4;
    let c = k % 4;
    if c == 0 {
        lut_level(p % 33)
    } else if c == 1 {
        lut_level((p / 33) % 33)
    } else if c == 2 {
        lut_level(p / 1089)
    } else {
        255
    }
}

/// The 33 x 33 x 33 RGBA identity lookup table that the colour pipeline starts from.
pub fn create_3d_identity_data() -> (r: Vec<u8>)
    ensures
        r@.len() == 33 * 33 * 33 * 4,
        forall|k: int| 0 <= k < r@.len() ==> r@[k] == identity_lut_byte(k),
{
    let n: usize = LUT_SIZE * LUT_SIZE * LUT_SIZE;
    let mut data: Vec<u8> = Vec::with_capacity(n * 4);
    let mut p: usize = 0;
    while p < n
        invariant
            n == 33 * 33 * 33,
            p <= n,
            data@.len() == 4 * p,
            forall|k: int| 0 <= k < data@.len() ==> data@[k] == identity_lut_byte(k),
        decreases n - p,
    {
        let x = p % LUT_SIZE;
        let y = (p / LUT_SIZE) % LUT_SIZE;
        let z = p / (LUT_SIZE * LUT_SIZE);
        assert(z < 33) by (nonlinear_arith)
            requires
                p < 35937,
                z == p / 1089,
        ;
        data.push((x * 255 / 32) as u8);
        data.push((y * 255 / 32) as u8);
        data.push((z * 255 / 32) as u8);
        data.push(255);
        proof {
            let q = 4 * p as int;
            assert(q / 4 == p && q % 4 == 0);
            assert((q + 1) / 4 == p && (q + 1) % 4 == 1);
            assert((q + 2) / 4 == p && (q + 2) % 4 == 2);
            assert((q + 3) / 4 == p && (q + 3) % 4 == 3);
            assert(data@[q] == identity_lut_byte(q));
            assert(data@[q + 1] == identity_lut_byte(q + 1));
            assert(data@[q + 2] == identity_lut_byte(q + 2));
            assert(data@[q + 3] == identity_lut_byte(q + 3));
        }
        p += 1;
    }
    data
}

} // verus!
