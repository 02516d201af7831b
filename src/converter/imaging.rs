//! The image operations that the conversion borrows from the `image` crate.
//! Pictures cross this boundary as plain values: a width, a height and the
//! row-major pixel bytes (four per pixel for RGBA, one for luma).
use image::imageops::{self, BiLevel, FilterType};
use image::{DynamicImage, GrayImage, ImageBuffer, ImageError, RgbaImage};
use vstd::prelude::*;

verus! {

#[verifier::external_type_specification]
#[verifier::external_body]
pub struct ExImageError(ImageError);

/// The size that `image` decodes an encoded picture to, or nothing when it
/// cannot decode the bytes.
pub uninterp spec fn decoded_size(encoded: Seq<u8>) -> Option<(u32, u32)>;

/// The luma plane of an RGBA picture, one byte per pixel: the Rec. 709
/// weighted sum of red, green and blue, rounded down; alpha is dropped.
pub open spec fn luma_of(rgba: Seq<u8>) -> Seq<u8> {
    Seq::new(
        rgba.len() / 4,
        |i: int|
            ((2126 * rgba[4 * i] + 7152 * rgba[4 * i + 1] + 722 * rgba[4 * i + 2]) / 10000) as u8,
    )
}

/// The two-level picture that `image`'s Floyd-Steinberg dithering with the
/// `BiLevel` palette makes of a luma plane of the given size.
pub uninterp spec fn dithered(luma: Seq<u8>, width: u32, height: u32) -> Seq<u8>;

/// The RGBA pixels of a picture turned a quarter clockwise: the result is
/// `height` wide and `width` high, and its pixel `(x, y)` is the source's
/// pixel `(y, height - 1 - x)`.
pub open spec fn rotated_pixels(rgba: Seq<u8>, width: int, height: int) -> Seq<u8> {
    Seq::new(
        rgba.len(),
        |i: int|
            {
                let q = i / 4;
                let x = q % height;
                let y = q / height;
                rgba[((height - 1 - x) * width + y) * 4 + i % 4]
            },
    )
}

/// Whether `f` is `num / den` rounded to the nearest integer, or 1 where
/// that rounds to 0.
pub open spec fn rounds_to(f: int, num: int, den: int) -> bool {
    ||| -den <= 2 * (f * den - num) <= den
    ||| f == 1 && 2 * num <= den
}

/// Whether `(fw, fh)` is what fitting a `w` by `h` picture into `nw` by `nh`
/// with its aspect ratio kept gives: one side on its bound, the other scaled
/// by the same ratio and rounded to nearest (at least 1), none beyond.
pub open spec fn is_fitted(fw: int, fh: int, w: int, h: int, nw: int, nh: int) -> bool {
    &&& 1 <= fw <= nw
    &&& 1 <= fh <= nh
    &&& (fw == nw && rounds_to(fh, h * nw, w)) || (fh == nh && rounds_to(fw, w * nh, h))
}

/// Whether fitting a `w` by `h` picture into `nw` by `nh` stays addressable:
/// the resampler's vertical pass holds `w` by at most `nh` pixels at sixteen
/// bytes each, and the result at most `nw` by `nh` pixels at four.
pub open spec fn fit_fits(w: int, h: int, nw: int, nh: int) -> bool {
    &&& 16 * w * nh <= usize::MAX
    &&& 4 * nw * nh <= usize::MAX
}

/// Whether covering `nw` by `nh` with a `w` by `h` picture stays within the
/// resampler's limits: the scaled picture, before its crop, is at most
/// `max(nw, w * nh)` wide and `max(nh, h * nw)` high; both must be `u32`
/// sizes, and the vertical pass holds that many pixels at sixteen bytes each.
pub open spec fn cover_fits(w: int, h: int, nw: int, nh: int) -> bool {
    &&& w * nh <= u32::MAX
    &&& h * nw <= u32::MAX
    &&& 16 * (if nw > w * nh { nw } else { w * nh }) * (if nh > h * nw { nh } else { h * nw })
        <= usize::MAX
}

/// Relies on `image::load_from_memory`, which guesses the format from the
/// bytes and decodes them, and on `DynamicImage::into_rgba8` to bring the
/// picture to 8-bit RGBA.
#[verifier::external_body]
pub(crate) fn decode_rgba(encoded: &[u8]) -> (r: Result<(u32, u32, Vec<u8>), ImageError>)
    ensures
        r is Ok <==> decoded_size(encoded@) is Some,
        r matches Ok((w, h, px)) ==> decoded_size(encoded@) == Some((w, h)) && px@.len() == 4 * w
            * h,
{
    match image::load_from_memory(encoded) {
        Ok(img) => {
            let rgba = img.into_rgba8();
            Ok((rgba.width(), rgba.height(), rgba.into_raw()))
        },
        Err(e) => Err(e),
    }
}

/// Relies on `DynamicImage::rotate90`: a quarter turn clockwise.
#[verifier::external_body]
pub(crate) fn rotate_quarter(width: u32, height: u32, rgba: Vec<u8>) -> (r: Vec<u8>)
    requires
        rgba@.len() == 4 * width * height,
    ensures
        r@ == rotated_pixels(rgba@, width as int, height as int),
{
    let buf: RgbaImage = ImageBuffer::from_raw(width, height, rgba).unwrap();
    DynamicImage::ImageRgba8(buf).rotate90().into_rgba8().into_raw()
}

/// Relies on `DynamicImage::resize` with the Lanczos3 filter: the largest
/// picture of the same aspect ratio that fits in `nwidth` by `nheight`.
#[verifier::external_body]
pub(crate) fn resize_to_fit(width: u32, height: u32, rgba: Vec<u8>, nwidth: u32, nheight: u32) -> (r: (
    u32,
    u32,
    Vec<u8>,
))
    requires
        width >= 1,
        height >= 1,
        nwidth >= 1,
        nheight >= 1,
        rgba@.len() == 4 * width * height,
        fit_fits(width as int, height as int, nwidth as int, nheight as int),
    ensures
        is_fitted(r.0 as int, r.1 as int, width as int, height as int, nwidth as int, nheight as int),
        r.2@.len() == 4 * r.0 * r.1,
{
    let buf: RgbaImage = ImageBuffer::from_raw(width, height, rgba).unwrap();
    let out = DynamicImage::ImageRgba8(buf).resize(nwidth, nheight, FilterType::Lanczos3).into_rgba8();
    (out.width(), out.height(), out.into_raw())
}

/// Relies on `DynamicImage::resize_to_fill` with the Lanczos3 filter: the
/// picture scaled with its aspect ratio kept until it covers `nwidth` by
/// `nheight`, then cropped about its centre to exactly that size.
#[verifier::external_body]
pub(crate) fn resize_to_cover(width: u32, height: u32, rgba: Vec<u8>, nwidth: u32, nheight: u32) -> (r:
    Vec<u8>)
    requires
        width >= 1,
        height >= 1,
        nwidth >= 1,
        nheight >= 1,
        rgba@.len() == 4 * width * height,
        cover_fits(width as int, height as int, nwidth as int, nheight as int),
    ensures
        r@.len() == 4 * nwidth * nheight,
{
    let buf: RgbaImage = ImageBuffer::from_raw(width, height, rgba).unwrap();
    DynamicImage::ImageRgba8(buf).resize_to_fill(nwidth, nheight, FilterType::Lanczos3).into_rgba8().into_raw()
}

/// Relies on `DynamicImage::grayscale`, brought to one luma byte per pixel by
/// `DynamicImage::into_luma8`.
#[verifier::external_body]
pub(crate) fn grayscale(width: u32, height: u32, rgba: Vec<u8>) -> (r: Vec<u8>)
    requires
        rgba@.len() == 4 * width * height,
    ensures
        r@ == luma_of(rgba@),
        r@.len() == width * height,
{
    let buf: RgbaImage = ImageBuffer::from_raw(width, height, rgba).unwrap();
    DynamicImage::ImageRgba8(buf).grayscale().into_luma8().into_raw()
}

/// Relies on `imageops::dither` with the `BiLevel` palette, which maps every
/// pixel to 0 or 255. It indexes a right and a lower neighbour of the first
/// column, so the picture must be at least two pixels wide.
#[verifier::external_body]
pub(crate) fn dither_bilevel(width: u32, height: u32, luma: Vec<u8>) -> (r: Vec<u8>)
    requires
        width >= 2,
        height >= 1,
        luma@.len() == width * height,
    ensures
        r@ == dithered(luma@, width, height),
        r@.len() == luma@.len(),
        forall|p: int| 0 <= p < r@.len() ==> #[trigger] r@[p] == 0 || r@[p] == 255,
{
    let mut img: GrayImage = ImageBuffer::from_raw(width, height, luma).unwrap();
    imageops::dither(&mut img, &BiLevel);
    img.into_raw()
}

} // verus!
