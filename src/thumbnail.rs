use vstd::prelude::*;
use crate::block::ExifBlock;
use crate::external::{encode_jpeg, jpeg_of, thumbnail_of, thumbnail_rgb};

verus! {

/// First JPEG quality tried for a regenerated thumbnail.
pub const START_QUALITY: u8 = 90;

/// Lowest JPEG quality tried.
pub const MIN_QUALITY: u8 = 10;

/// Step by which the quality drops between attempts.
pub const QUALITY_STEP: u8 = 10;

/// The encoding at quality `q` if it fits in `max` bytes or `q` is the
/// floor; else the first that does, stepping the quality down.
pub open spec fn first_fit(rgb: Seq<u8>, w: u32, h: u32, max: nat, q: u8) -> Seq<u8>
    decreases q,
{
    let out = jpeg_of(rgb, w, h, q);
    if out.len() <= max || q <= MIN_QUALITY {
        out
    } else {
        first_fit(rgb, w, h, max, (q - QUALITY_STEP) as u8)
    }
}

/// The preview fitted to exactly `max` bytes (zero-padded), or nothing when
/// even the lowest quality does not fit.
pub open spec fn fitted(rgb: Seq<u8>, w: u32, h: u32, max: nat) -> Seq<u8> {
    let out = first_fit(rgb, w, h, max, START_QUALITY);
    if out.len() > max {
        Seq::empty()
    } else {
        out + Seq::new((max - out.len()) as nat, |i: int| 0u8)
    }
}

/// Encodes the RGB preview `rgb` of `w` by `h` pixels as a JPEG that fits in
/// `max_size` bytes, lowering the quality step by step; pads it with zeros
/// to exactly `max_size` bytes, or gives nothing when it cannot fit.
pub fn fit_thumbnail(rgb: &[u8], w: u32, h: u32, max_size: usize) -> (r: Vec<u8>)
    requires
        rgb@.len() == w as int * h as int * 3,
    ensures
        r@ == fitted(rgb@, w, h, max_size as nat),
{
    let mut quality: u8 = START_QUALITY;
    let mut result = encode_jpeg(rgb, w, h, quality);
    while !(result.len() <= max_size || quality <= MIN_QUALITY)
        invariant
            rgb@.len() == w as int * h as int * 3,
            quality <= START_QUALITY,
            result@ == jpeg_of(rgb@, w, h, quality),
            first_fit(rgb@, w, h, max_size as nat, START_QUALITY) == first_fit(rgb@, w, h, max_size as nat, quality),
        decreases quality,
    {
        quality = quality - QUALITY_STEP;
        result = encode_jpeg(rgb, w, h, quality);
    }
    if result.len() > max_size {
        return Vec::new();
    }
    let ghost out = result@;
    while result.len() < max_size
        invariant
            out.len() <= max_size,
            out.len() <= result@.len() <= max_size,
            result@.subrange(0, out.len() as int) == out,
            forall|i: int| out.len() <= i < result@.len() ==> result@[i] == 0u8,
        decreases max_size - result@.len(),
    {
        result.push(0u8);
    }
    assert(result@ =~= out + Seq::new((max_size - out.len()) as nat, |i: int| 0u8));
    result
}

impl ExifBlock {
    /// A replacement for the embedded thumbnail, made from the RGBA raster
    /// `rgba` of `w` by `h` pixels: scaled down to a preview, then fitted to
    /// the byte length reserved at decode time.
    pub fn generate_fitted_thumbnail(&self, rgba: &[u8], w: u32, h: u32) -> (r: Vec<u8>)
        ensures
            r@ == fitted(thumbnail_of(rgba@, w, h).0, thumbnail_of(rgba@, w, h).1, thumbnail_of(rgba@, w, h).2, self.thumbnailsize as nat),
    {
        let (rgb, pw, ph) = thumbnail_rgb(rgba, w, h);
        fit_thumbnail(rgb.as_slice(), pw, ph, self.thumbnailsize as usize)
    }
}

} // verus!
