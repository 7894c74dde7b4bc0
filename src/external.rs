use vstd::prelude::*;
use base64::Engine;
use vstd::utf8::{encode_utf8, valid_utf8};

verus! {

/// Standard base64 (with padding) of a byte string, as the `base64` crate computes it.
pub uninterp spec fn base64_of(b: Seq<u8>) -> Seq<char>;

/// Text decoded from bytes, each invalid UTF-8 sequence replaced by U+FFFD.
pub uninterp spec fn lossy_text(b: Seq<u8>) -> Seq<char>;

/// Relies on base64's `general_purpose::STANDARD.encode`: the padded standard
/// encoding of the bytes, four characters for every started group of three
/// bytes. It panics only when the output length overflows, which the bound on
/// the input rules out.
#[verifier::external_body]
pub(crate) fn base64_encode(b: &[u8]) -> (r: String)
    requires
        b@.len() <= 0x4000_0000_0000_0000,
    ensures
        r@ == base64_of(b@),
        r@.len() == 4 * ((b@.len() + 2) / 3),
{
    base64::engine::general_purpose::STANDARD.encode(b)
}

/// Relies on std's `String::from_utf8_lossy`: the text of the bytes, with
/// U+FFFD for invalid sequences; valid UTF-8 comes back unchanged, so ASCII
/// bytes come back as the same characters.
#[verifier::external_body]
pub(crate) fn utf8_lossy(b: &[u8]) -> (r: String)
    ensures
        r@ == lossy_text(b@),
        valid_utf8(b@) ==> encode_utf8(r@) == b@,
        (forall|i: int| 0 <= i < b@.len() ==> b@[i] < 0x80) ==> r@ == Seq::new(
            b@.len(),
            |i: int| b@[i] as char,
        ),
{
    String::from_utf8_lossy(b).into_owned()
}

/// The bytes of the baseline JPEG that the `image` crate's encoder writes for
/// an RGB raster of `w` by `h` pixels at the given quality.
pub uninterp spec fn jpeg_of(rgb: Seq<u8>, w: u32, h: u32, quality: u8) -> Seq<u8>;

/// The RGB raster, width and height of the preview that the `image` crate's
/// `thumbnail` scales an RGBA raster of `w` by `h` pixels down to, within
/// 160 by 120 pixels.
pub uninterp spec fn thumbnail_of(rgba: Seq<u8>, w: u32, h: u32) -> (Seq<u8>, u32, u32);

/// Relies on image's `JpegEncoder::new_with_quality` and `encode` with
/// `ExtendedColorType::Rgb8`: the encoded bytes depend on the raster and the
/// quality alone. The encoder panics unless the raster has exactly three
/// bytes per pixel; an encoding error leaves what was written so far.
#[verifier::external_body]
pub(crate) fn encode_jpeg(rgb: &[u8], w: u32, h: u32, quality: u8) -> (r: Vec<u8>)
    requires
        rgb@.len() == w as int * h as int * 3,
    ensures
        r@ == jpeg_of(rgb@, w, h, quality),
{
    let mut out: Vec<u8> = Vec::new();
    let mut encoder = image::codecs::jpeg::JpegEncoder::new_with_quality(&mut out, quality);
    let _ = encoder.encode(rgb, w, h, image::ExtendedColorType::Rgb8);
    out
}

/// Relies on image's `DynamicImage::thumbnail(160, 120)`, converted to RGB:
/// the preview's raster holds three bytes per pixel of its dimensions. A
/// raster too short for its dimensions gives an empty preview.
#[verifier::external_body]
pub(crate) fn thumbnail_rgb(rgba: &[u8], w: u32, h: u32) -> (r: (Vec<u8>, u32, u32))
    ensures
        (r.0@, r.1, r.2) == thumbnail_of(rgba@, w, h),
        r.0@.len() == r.1 as int * r.2 as int * 3,
{
    match image::RgbaImage::from_raw(w, h, rgba.to_vec()) {
        Some(img) => {
            let preview = image::DynamicImage::ImageRgba8(img).thumbnail(160, 120).to_rgb8();
            let (pw, ph) = preview.dimensions();
            (preview.into_raw(), pw, ph)
        },
        None => (Vec::new(), 0, 0),
    }
}

/// Relies on chrono's `Local::now`, formatted as `%Y:%m:%d %H:%M:%S`: the
/// current local time; nothing is promised of its text.
#[verifier::external_body]
pub(crate) fn local_timestamp() -> (r: String) {
    chrono::Local::now().format("%Y:%m:%d %H:%M:%S").to_string()
}

} // verus!
