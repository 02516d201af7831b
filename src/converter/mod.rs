//! Conversion of images and text to the panel's frame format.
//!
//! An image is turned to the panel's orientation if need be, fitted to the
//! panel (either padded onto a white canvas or cropped to fill it), reduced to
//! luma, dithered to pure black and white, and packed into a frame.
pub mod imaging;
pub mod text;

use crate::epd_configs::EpdConfig;
use crate::frame::{pack_coverage, pack_pixels, packed, packed_bits};
use imaging::{
    cover_fits, decode_rgba, decoded_size, dither_bilevel, dithered, fit_fits, grayscale,
    is_fitted, luma_of, resize_to_cover, resize_to_fit, rotate_quarter, rotated_pixels,
};
use text::{draw_text, font_parses, load_font};
use vstd::arithmetic::div_mod::lemma_fundamental_div_mod_converse;
use vstd::prelude::*;

verus! {

/// Color mode for the converted image data. Only black and white is rendered:
/// `BlackWhiteRed` is accepted and converts exactly as `BlackWhite` does.
#[derive(Debug, Clone, Copy, PartialEq, Eq, Structural)]
pub enum ColorMode {
    /// For displays which only display black and white.
    BlackWhite,
    /// For displays which display black, white and red.
    BlackWhiteRed,
}

/// How an image is fitted to the display.
#[derive(Debug, Clone, Copy, PartialEq, Eq, Structural)]
pub enum CropMode {
    /// Resize to fit the image in the center of the display and pad the rest
    /// of the space with white.
    Center,
    /// Resize the image and crop it to fill the display with no padding.
    CropToFit,
}

/// How an image is turned before it is fitted.
#[derive(Debug, Clone, Copy, PartialEq, Eq, Structural)]
pub enum RotationMode {
    /// Rotate the image when it is landscape on a portrait display or the
    /// other way round.
    Automatic,
    /// Rotate the image when it is portrait or the display is landscape.
    ForceLandscape,
    /// Rotate the image when it is landscape or the display is portrait.
    ForcePortrait,
}

impl Default for ColorMode {
    fn default() -> (r: ColorMode)
        ensures
            r == ColorMode::BlackWhite,
    {
        ColorMode::BlackWhite
    }
}

impl Default for CropMode {
    fn default() -> (r: CropMode)
        ensures
            r == CropMode::Center,
    {
        CropMode::Center
    }
}

impl Default for RotationMode {
    fn default() -> (r: RotationMode)
        ensures
            r == RotationMode::Automatic,
    {
        RotationMode::Automatic
    }
}

/// Why a conversion failed.
#[derive(Debug, Clone, Copy, PartialEq, Eq, Structural)]
pub enum ConvertError {
    /// The target width or height is zero, or the target is larger than this
    /// machine or the renderer can address (see [`target_ok`] and
    /// [`text_target_ok`]).
    InvalidDimensions,
    /// The encoded image could not be decoded.
    SourceLoad,
    /// The decoded image has no pixels, or scaling it to the display needs
    /// more memory than this machine can address.
    SourceSize,
    /// The picture to dither is a single pixel wide, which the dithering of
    /// the `image` crate does not take.
    TooNarrow,
    /// The font data could not be parsed.
    FontLoad,
}

/// Options for converting an image.
///
/// `epd_width` and `epd_height` are the display's size in pixels; set them
/// with [`EpdImageOptions::load_epd_config`].
#[derive(Debug, Clone, Copy, PartialEq, Eq, Structural)]
pub struct EpdImageOptions {
    pub crop_mode: CropMode,
    pub rotation_mode: RotationMode,
    pub color_mode: ColorMode,
    pub epd_width: usize,
    pub epd_height: usize,
}

impl Default for EpdImageOptions {
    fn default() -> (r: EpdImageOptions)
        ensures
            r == (EpdImageOptions {
                crop_mode: CropMode::Center,
                rotation_mode: RotationMode::Automatic,
                color_mode: ColorMode::BlackWhite,
                epd_width: 0,
                epd_height: 0,
            }),
    {
        EpdImageOptions {
            crop_mode: CropMode::default(),
            rotation_mode: RotationMode::default(),
            color_mode: ColorMode::default(),
            epd_width: 0,
            epd_height: 0,
        }
    }
}

/// Whether a rotation mode turns a `w` by `h` image for a `tw` by `th` display.
pub open spec fn needs_rotation(mode: RotationMode, w: int, h: int, tw: int, th: int) -> bool {
    match mode {
        RotationMode::Automatic => (w > h && tw < th) || (w < h && tw > th),
        RotationMode::ForcePortrait => w > h || tw < th,
        RotationMode::ForceLandscape => w < h || tw > th,
    }
}

/// Number of bytes in the frame of a `width` by `height` display.
pub open spec fn frame_len(width: int, height: int) -> int {
    width * height / 8
}

/// Whether a display size is one that the conversion takes on: both sides
/// positive and `u32` sizes, and a canvas of that size at four bytes per
/// pixel addressable.
pub open spec fn target_ok(width: int, height: int) -> bool {
    &&& 0 < width <= u32::MAX
    &&& 0 < height <= u32::MAX
    &&& 4 * width * height <= usize::MAX
}

/// Whether a text canvas size is one that the renderer takes on: both sides
/// positive, with a pixel count that is a `u32`.
pub open spec fn text_target_ok(width: int, height: int) -> bool {
    &&& 0 < width
    &&& 0 < height
    &&& width * height <= u32::MAX
}

fn target_supported(width: usize, height: usize) -> (r: bool)
    ensures
        r == target_ok(width as int, height as int),
{
    if width == 0 || height == 0 || width > u32::MAX as usize || height > u32::MAX as usize {
        return false;
    }
    assert(4 * width * height <= 4 * 0xffff_ffff * 0xffff_ffff) by (nonlinear_arith)
        requires
            width <= 0xffff_ffffusize,
            height <= 0xffff_ffffusize,
    ;
    4 * (width as u128) * (height as u128) <= usize::MAX as u128
}

impl EpdImageOptions {
    /// Options with the default modes and no display size.
    pub fn new() -> (r: EpdImageOptions)
        ensures
            r == (EpdImageOptions {
                crop_mode: CropMode::Center,
                rotation_mode: RotationMode::Automatic,
                color_mode: ColorMode::BlackWhite,
                epd_width: 0,
                epd_height: 0,
            }),
    {
        EpdImageOptions::default()
    }

    /// Takes the display's width and height from its configuration.
    pub fn load_epd_config(&mut self, epd_config: EpdConfig)
        ensures
            *final(self) == (EpdImageOptions {
                epd_width: epd_config.width,
                epd_height: epd_config.height,
                ..*old(self)
            }),
    {
        self.epd_width = epd_config.width;
        self.epd_height = epd_config.height;
    }

    /// Whether an image of the given size is rotated before it is fitted.
    pub fn check_rotation(&self, width: u32, height: u32) -> (r: bool)
        ensures
            r == needs_rotation(
                self.rotation_mode,
                width as int,
                height as int,
                self.epd_width as int,
                self.epd_height as int,
            ),
    {
        let w = width as usize;
        let h = height as usize;
        match self.rotation_mode {
            RotationMode::Automatic => (w > h && self.epd_width < self.epd_height) || (w < h
                && self.epd_width > self.epd_height),
            RotationMode::ForcePortrait => w > h || self.epd_width < self.epd_height,
            RotationMode::ForceLandscape => w < h || self.epd_width > self.epd_height,
        }
    }
}

/// A decoded picture as plain values.
pub struct Raster {
    pub width: u32,
    pub height: u32,
    /// Row-major pixel bytes, four (RGBA) per pixel.
    pub pixels: Seq<u8>,
}

/// A decoded source image: at least one pixel on each side, with four bytes
/// (RGBA) per pixel, row by row from the top left.
pub struct SourceImage {
    width: u32,
    height: u32,
    pixels: Vec<u8>,
}

impl View for SourceImage {
    type V = Raster;

    closed spec fn view(&self) -> Raster {
        Raster { width: self.width, height: self.height, pixels: self.pixels@ }
    }
}

/// Whether a size and a pixel buffer make a source image.
pub open spec fn source_ok(width: int, height: int, len: int) -> bool {
    &&& 0 < width
    &&& 0 < height
    &&& len == 4 * width * height
}

impl SourceImage {
    #[verifier::type_invariant]
    spec fn inv(&self) -> bool {
        source_ok(self.width as int, self.height as int, self.pixels@.len() as int)
    }

    /// Wraps RGBA pixels of the given size; `None` unless each side is at
    /// least 1 and there are exactly four bytes per pixel.
    pub fn from_rgba(width: u32, height: u32, pixels: Vec<u8>) -> (r: Option<SourceImage>)
        ensures
            r is Some <==> source_ok(width as int, height as int, pixels@.len() as int),
            r matches Some(img) ==> img@ == (Raster { width, height, pixels: pixels@ }),
    {
        if width == 0 || height == 0 {
            return None;
        }
        assert(4 * width * height <= 4 * 0xffff_ffff * 0xffff_ffff) by (nonlinear_arith)
            requires
                width <= 0xffff_ffffu32,
                height <= 0xffff_ffffu32,
        ;
        if pixels.len() as u128 != 4 * (width as u128) * (height as u128) {
            return None;
        }
        Some(SourceImage { width, height, pixels })
    }

    /// Width in pixels.
    pub fn width(&self) -> (r: u32)
        ensures
            r == self@.width,
    {
        self.width
    }

    /// Height in pixels.
    pub fn height(&self) -> (r: u32)
        ensures
            r == self@.height,
    {
        self.height
    }
}

/// The source turned to the display's orientation, as the options ask.
pub open spec fn oriented(src: Raster, options: EpdImageOptions) -> Raster {
    if needs_rotation(
        options.rotation_mode,
        src.width as int,
        src.height as int,
        options.epd_width as int,
        options.epd_height as int,
    ) {
        Raster {
            width: src.height,
            height: src.width,
            pixels: rotated_pixels(src.pixels, src.width as int, src.height as int),
        }
    } else {
        src
    }
}

/// Where a `w` by `h` picture goes on a `cw` by `ch` canvas: centred
/// vertically when it is shorter than the canvas, else centred horizontally.
pub open spec fn center_origin(cw: int, ch: int, w: int, h: int) -> (int, int) {
    if h < ch {
        (0, (ch - h) / 2)
    } else {
        ((cw - w) / 2, 0)
    }
}

/// A white `cw` by `ch` luma canvas with a `w` by `h` luma picture placed at
/// [`center_origin`].
pub open spec fn composited(img: Seq<u8>, w: int, h: int, cw: int, ch: int) -> Seq<u8> {
    let (ox, oy) = center_origin(cw, ch, w, h);
    Seq::new(
        (cw * ch) as nat,
        |p: int|
            {
                let x = p % cw;
                let y = p / cw;
                if ox <= x < ox + w && oy <= y < oy + h {
                    img[(y - oy) * w + (x - ox)]
                } else {
                    255u8
                }
            },
    )
}

/// The two-level luma picture that an RGBA picture dithers to.
pub open spec fn binarized(rgba: Seq<u8>, width: u32, height: u32) -> Seq<u8> {
    dithered(luma_of(rgba), width, height)
}

/// The frame that a picture already fitted into a `cw` by `ch` display gives
/// in `Center` mode.
pub open spec fn center_frame_of(rgba: Seq<u8>, fw: u32, fh: u32, cw: u32, ch: u32) -> Seq<u8> {
    packed(composited(binarized(rgba, fw, fh), fw as int, fh as int, cw as int, ch as int))
}

/// The frame that a picture already resized to cover a `width` by `height`
/// display gives in `CropToFit` mode.
pub open spec fn fill_frame_of(rgba: Seq<u8>, width: u32, height: u32) -> Seq<u8> {
    packed(binarized(rgba, width, height))
}

/// Places a `w` by `h` luma picture on a white `cw` by `ch` canvas, centred
/// along the axis that has room to spare.
pub fn center_on_canvas(img: &[u8], w: u32, h: u32, cw: u32, ch: u32) -> (canvas: Vec<u8>)
    requires
        w <= cw,
        h <= ch,
        img@.len() == w * h,
        cw * ch <= usize::MAX,
    ensures
        canvas@ == composited(img@, w as int, h as int, cw as int, ch as int),
{
    let (ox, oy): (u32, u32) = if h < ch {
        (0, (ch - h) / 2)
    } else {
        ((cw - w) / 2, 0)
    };
    let ghost spec_canvas = composited(img@, w as int, h as int, cw as int, ch as int);
    let mut canvas: Vec<u8> = Vec::with_capacity((cw as usize) * (ch as usize));
    let mut y: u32 = 0;
    while y < ch
        invariant
            y <= ch,
            w <= cw,
            h <= ch,
            img@.len() == w * h,
            (ox as int, oy as int) == center_origin(cw as int, ch as int, w as int, h as int),
            spec_canvas == composited(img@, w as int, h as int, cw as int, ch as int),
            canvas@.len() == y * cw,
            forall|p: int| 0 <= p < canvas@.len() ==> canvas@[p] == spec_canvas[p],
        decreases ch - y,
    {
        let mut x: u32 = 0;
        while x < cw
            invariant
                y < ch,
                x <= cw,
                w <= cw,
                h <= ch,
                img@.len() == w * h,
                (ox as int, oy as int) == center_origin(cw as int, ch as int, w as int, h as int),
                spec_canvas == composited(img@, w as int, h as int, cw as int, ch as int),
                canvas@.len() == y * cw + x,
                forall|p: int| 0 <= p < canvas@.len() ==> canvas@[p] == spec_canvas[p],
            decreases cw - x,
        {
            let inside = ox <= x && x < ox + w && oy <= y && y < oy + h;
            let v: u8 = if inside {
                proof {
                    assert(0 <= (y - oy) * w + (x - ox) < w * h) by (nonlinear_arith)
                        requires
                            0 <= y - oy < h,
                            0 <= x - ox < w,
                    ;
                    assert((y - oy) * w <= (y - oy) * w + (x - ox));
                    assert(img@.len() == img.len());
                }
                img[((y - oy) as usize) * (w as usize) + ((x - ox) as usize)]
            } else {
                255
            };
            proof {
                let p = y * cw + x;
                lemma_fundamental_div_mod_converse(p, cw as int, y as int, x as int);
                assert(p < cw * ch) by (nonlinear_arith)
                    requires
                        p == y * cw + x,
                        x < cw,
                        y < ch,
                ;
                assert(v == spec_canvas[p]);
            }
            canvas.push(v);
            x = x + 1;
        }
        assert(canvas@.len() == (y + 1) * cw) by (nonlinear_arith)
            requires
                canvas@.len() == y * cw + cw,
        ;
        y = y + 1;
    }
    proof {
        assert(canvas@.len() == cw * ch) by (nonlinear_arith)
            requires
                canvas@.len() == y * cw,
                y == ch,
        ;
    }
    assert(canvas@ =~= spec_canvas);
    canvas
}

/// A conversion result with the frame as a sequence.
pub open spec fn frame_result(r: Result<Vec<u8>, ConvertError>) -> Result<Seq<u8>, ConvertError> {
    match r {
        Ok(f) => Ok(f@),
        Err(e) => Err(e),
    }
}

/// A `Center` conversion of the oriented image `o` for a `tw` by `th`
/// display that the resampler fitted to `fw` by `fh` with pixels `fp`.
pub open spec fn center_outcome(
    o: Raster,
    tw: u32,
    th: u32,
    fw: u32,
    fh: u32,
    fp: Seq<u8>,
    r: Result<Seq<u8>, ConvertError>,
) -> bool {
    &&& is_fitted(fw as int, fh as int, o.width as int, o.height as int, tw as int, th as int)
    &&& fp.len() == 4 * fw * fh
    &&& r == if fw < 2 {
        Err(ConvertError::TooNarrow)
    } else {
        Ok(center_frame_of(fp, fw, fh, tw, th))
    }
}

/// What converting `src` for a display of a valid size gives, whatever
/// picture the resampler returns within its documented bounds.
///
/// `Center`: a fit that is not addressable is refused; otherwise the oriented
/// image is fitted into the display; a fitted picture a single pixel wide
/// cannot be dithered, any other is dithered and centred on a white canvas. `CropToFit`: a display a single pixel wide cannot be
/// dithered; a cover that is not addressable is refused; otherwise the image
/// is scaled and cropped to the display's exact size and dithered.
pub open spec fn frame_outcome(
    src: Raster,
    options: EpdImageOptions,
    r: Result<Seq<u8>, ConvertError>,
) -> bool {
    let tw = options.epd_width as u32;
    let th = options.epd_height as u32;
    let o = oriented(src, options);
    match options.crop_mode {
        CropMode::Center => if !fit_fits(o.width as int, o.height as int, tw as int, th as int) {
            r == Err::<Seq<u8>, ConvertError>(ConvertError::SourceSize)
        } else {
            exists|fw: u32, fh: u32, fp: Seq<u8>| #[trigger] center_outcome(o, tw, th, fw, fh, fp, r)
        },
        CropMode::CropToFit => if tw < 2 {
            r == Err::<Seq<u8>, ConvertError>(ConvertError::TooNarrow)
        } else if !cover_fits(o.width as int, o.height as int, tw as int, th as int) {
            r == Err::<Seq<u8>, ConvertError>(ConvertError::SourceSize)
        } else {
            exists|fp: Seq<u8>| fp.len() == 4 * tw * th && r == Ok::<Seq<u8>, ConvertError>(fill_frame_of(fp, tw, th))
        },
    }
}

/// Finishes a `Center` conversion from a picture already fitted into a `cw`
/// by `ch` display: reduces it to luma, dithers it and centres it on a white
/// canvas of the display's size, then packs the canvas.
pub fn center_frame(fw: u32, fh: u32, rgba: Vec<u8>, cw: u32, ch: u32) -> (r: Result<
    Vec<u8>,
    ConvertError,
>)
    requires
        1 <= fw <= cw,
        1 <= fh <= ch,
        rgba@.len() == 4 * fw * fh,
        cw * ch <= usize::MAX,
    ensures
        fw < 2 ==> r == Err::<Vec<u8>, ConvertError>(ConvertError::TooNarrow),
        fw >= 2 ==> (r matches Ok(f) && f@ == center_frame_of(rgba@, fw, fh, cw, ch)),
{
    if fw < 2 {
        return Err(ConvertError::TooNarrow);
    }
    let luma = grayscale(fw, fh, rgba);
    let bits = dither_bilevel(fw, fh, luma);
    let canvas = center_on_canvas(bits.as_slice(), fw, fh, cw, ch);
    Ok(pack_pixels(canvas.as_slice()))
}

/// Finishes a `CropToFit` conversion from a picture already scaled and
/// cropped to the `width` by `height` display: reduces it to luma, dithers it
/// and packs it.
pub fn fill_frame(rgba: Vec<u8>, width: u32, height: u32) -> (r: Result<Vec<u8>, ConvertError>)
    requires
        1 <= width,
        1 <= height,
        rgba@.len() == 4 * width * height,
    ensures
        width < 2 ==> r == Err::<Vec<u8>, ConvertError>(ConvertError::TooNarrow),
        width >= 2 ==> (r matches Ok(f) && f@ == fill_frame_of(rgba@, width, height) && f@.len()
            == width * height / 8),
{
    if width < 2 {
        return Err(ConvertError::TooNarrow);
    }
    let luma = grayscale(width, height, rgba);
    let bits = dither_bilevel(width, height, luma);
    Ok(pack_pixels(bits.as_slice()))
}

fn fit_addressable(w: u32, h: u32, tw: u32, th: u32) -> (r: bool)
    ensures
        r == fit_fits(w as int, h as int, tw as int, th as int),
{
    assert(16 * w * th <= 16 * 0xffff_ffff * 0xffff_ffff && 4 * tw * th <= 4 * 0xffff_ffff
        * 0xffff_ffff) by (nonlinear_arith)
        requires
            w <= 0xffff_ffffu32,
            th <= 0xffff_ffffu32,
            tw <= 0xffff_ffffu32,
    ;
    16 * (w as u128) * (th as u128) <= usize::MAX as u128 && 4 * (tw as u128) * (th as u128)
        <= usize::MAX as u128
}

fn cover_addressable(w: u32, h: u32, tw: u32, th: u32) -> (r: bool)
    ensures
        r == cover_fits(w as int, h as int, tw as int, th as int),
{
    assert(w * th <= 0xffff_ffff * 0xffff_ffff && h * tw <= 0xffff_ffff * 0xffff_ffff)
        by (nonlinear_arith)
        requires
            w <= 0xffff_ffffu32,
            h <= 0xffff_ffffu32,
            tw <= 0xffff_ffffu32,
            th <= 0xffff_ffffu32,
    ;
    let w_th: u64 = (w as u64) * (th as u64);
    let h_tw: u64 = (h as u64) * (tw as u64);
    if w_th > u32::MAX as u64 || h_tw > u32::MAX as u64 {
        return false;
    }
    let wide: u64 = if (tw as u64) > w_th {
        tw as u64
    } else {
        w_th
    };
    let high: u64 = if (th as u64) > h_tw {
        th as u64
    } else {
        h_tw
    };
    assert(16 * wide * high <= 16 * 0xffff_ffff * 0xffff_ffff) by (nonlinear_arith)
        requires
            wide <= 0xffff_ffff,
            high <= 0xffff_ffff,
    ;
    16 * (wide as u128) * (high as u128) <= usize::MAX as u128
}

/// Fits the oriented picture into the display, when that is addressable, and
/// finishes it as [`center_frame`] does.
fn fit_and_center(w: u32, h: u32, px: Vec<u8>, tw: u32, th: u32) -> (r: Result<Vec<u8>, ConvertError>)
    requires
        1 <= w,
        1 <= h,
        1 <= tw,
        1 <= th,
        px@.len() == 4 * w * h,
        4 * tw * th <= usize::MAX,
    ensures
        !fit_fits(w as int, h as int, tw as int, th as int) ==> r == Err::<Vec<u8>, ConvertError>(
            ConvertError::SourceSize,
        ),
        fit_fits(w as int, h as int, tw as int, th as int) ==> exists|fw: u32, fh: u32, fp: Seq<u8>|
            #[trigger] center_outcome(
                Raster { width: w, height: h, pixels: px@ },
                tw,
                th,
                fw,
                fh,
                fp,
                frame_result(r),
            ),
        r matches Ok(f) ==> f@.len() == tw * th / 8,
{
    if !fit_addressable(w, h, tw, th) {
        return Err(ConvertError::SourceSize);
    }
    let ghost o = Raster { width: w, height: h, pixels: px@ };
    let (fw, fh, fp) = resize_to_fit(w, h, px, tw, th);
    let ghost fps = fp@;
    assert(tw * th <= 4 * tw * th) by (nonlinear_arith)
        requires
            tw >= 1,
            th >= 1,
    ;
    let result = center_frame(fw, fh, fp, tw, th);
    proof {
        if fw >= 2 {
            lemma_composited_len(binarized(fps, fw, fh), fw as int, fh as int, tw as int, th as int);
        }
        assert(center_outcome(o, tw, th, fw, fh, fps, frame_result(result)));
    }
    result
}

/// Converts a decoded image to a frame for a display of
/// `options.epd_width` by `options.epd_height` pixels.
///
/// The image is first turned a quarter clockwise if the rotation mode asks for
/// it, then fitted as the crop mode says, reduced to luma, dithered to black
/// and white and packed: a white pixel is a set bit. The frame holds
/// `epd_width * epd_height / 8` bytes in either crop mode.
pub fn image_to_frame(source: SourceImage, options: EpdImageOptions) -> (r: Result<
    Vec<u8>,
    ConvertError,
>)
    ensures
        r == Err::<Vec<u8>, ConvertError>(ConvertError::InvalidDimensions) <==> !target_ok(
            options.epd_width as int,
            options.epd_height as int,
        ),
        target_ok(options.epd_width as int, options.epd_height as int) ==> frame_outcome(
            source@,
            options,
            frame_result(r),
        ),
        r matches Ok(f) ==> f@.len() == frame_len(options.epd_width as int, options.epd_height as int),
{
    if !target_supported(options.epd_width, options.epd_height) {
        return Err(ConvertError::InvalidDimensions);
    }
    let tw = options.epd_width as u32;
    let th = options.epd_height as u32;
    proof {
        use_type_invariant(&source);
    }
    let ghost src = source@;
    let ghost o = oriented(src, options);
    let SourceImage { width, height, pixels } = source;
    let (w, h, px) = if options.check_rotation(width, height) {
        let turned = rotate_quarter(width, height, pixels);
        (height, width, turned)
    } else {
        (width, height, pixels)
    };
    assert(w == o.width && h == o.height && px@ == o.pixels);
    assert(px@.len() == 4 * w * h) by (nonlinear_arith)
        requires
            px@.len() == 4 * width * height,
            (w == width && h == height) || (w == height && h == width),
    ;
    match options.crop_mode {
        CropMode::Center => {
            let result = fit_and_center(w, h, px, tw, th);
            assert(tw * th == options.epd_width * options.epd_height);
            result
        },
        CropMode::CropToFit => {
            if tw < 2 {
                return Err(ConvertError::TooNarrow);
            }
            if !cover_addressable(w, h, tw, th) {
                return Err(ConvertError::SourceSize);
            }
            let fp = resize_to_cover(w, h, px, tw, th);
            let ghost fps = fp@;
            let result = fill_frame(fp, tw, th);
            assert(frame_result(result) == Ok::<Seq<u8>, ConvertError>(fill_frame_of(fps, tw, th)));
            assert(tw * th == options.epd_width * options.epd_height);
            result
        },
    }
}

proof fn lemma_composited_len(img: Seq<u8>, w: int, h: int, cw: int, ch: int)
    requires
        0 <= cw,
        0 <= ch,
    ensures
        packed(composited(img, w, h, cw, ch)).len() == cw * ch / 8,
{
    assert(cw * ch >= 0) by (nonlinear_arith)
        requires
            0 <= cw,
            0 <= ch,
    ;
}

/// Decodes an encoded image (its format guessed from its bytes) and converts
/// it as [`image_to_frame`] does. The display size is checked before
/// anything is decoded.
pub fn image_to_epd(encoded: &[u8], options: EpdImageOptions) -> (r: Result<Vec<u8>, ConvertError>)
    ensures
        r == Err::<Vec<u8>, ConvertError>(ConvertError::InvalidDimensions) <==> !target_ok(
            options.epd_width as int,
            options.epd_height as int,
        ),
        target_ok(options.epd_width as int, options.epd_height as int) ==> (r == Err::<
            Vec<u8>,
            ConvertError,
        >(ConvertError::SourceLoad) <==> decoded_size(encoded@) is None),
        target_ok(options.epd_width as int, options.epd_height as int) ==> (decoded_size(encoded@)
            matches Some((w, h)) ==> {
            &&& (w == 0 || h == 0) ==> r == Err::<Vec<u8>, ConvertError>(ConvertError::SourceSize)
            &&& (w > 0 && h > 0) ==> exists|px: Seq<u8>|
                px.len() == 4 * w * h && frame_outcome(
                    Raster { width: w, height: h, pixels: px },
                    options,
                    #[trigger] frame_result(r),
                )
        }),
        r matches Ok(f) ==> f@.len() == frame_len(options.epd_width as int, options.epd_height as int),
{
    if !target_supported(options.epd_width, options.epd_height) {
        return Err(ConvertError::InvalidDimensions);
    }
    match decode_rgba(encoded) {
        Err(_) => Err(ConvertError::SourceLoad),
        Ok((w, h, px)) => {
            let ghost pxs = px@;
            match SourceImage::from_rgba(w, h, px) {
                None => Err(ConvertError::SourceSize),
                Some(source) => {
                    let r = image_to_frame(source, options);
                    assert(pxs.len() == 4 * w * h && frame_outcome(
                        Raster { width: w, height: h, pixels: pxs },
                        options,
                        frame_result(r),
                    ));
                    r
                },
            }
        },
    }
}

/// Renders `text` with the given font at `font_size` points on a white
/// `width` by `height` canvas, from its top left corner, and packs the canvas
/// into a frame: a pixel that the text leaves white is a set bit. With no
/// text the frame is all set bits.
pub fn text_to_epd(text: &str, font_data: &[u8], font_size: u16, width: usize, height: usize) -> (r:
    Result<Vec<u8>, ConvertError>)
    ensures
        r == Err::<Vec<u8>, ConvertError>(ConvertError::InvalidDimensions) <==> !text_target_ok(
            width as int,
            height as int,
        ),
        text_target_ok(width as int, height as int) ==> (r is Ok <==> font_parses(
            font_data@,
            font_size,
        )),
        text_target_ok(width as int, height as int) && !font_parses(font_data@, font_size) ==> r
            == Err::<Vec<u8>, ConvertError>(ConvertError::FontLoad),
        r matches Ok(f) ==> f@.len() == frame_len(width as int, height as int) && exists|
            white: Seq<bool>,
        | white.len() == width * height && f@ == #[trigger] packed_bits(white),
        text@.len() == 0 ==> (r matches Ok(f) ==> f@ == packed_bits(
            Seq::new((width * height) as nat, |p: int| true),
        )),
{
    if width == 0 || height == 0 {
        return Err(ConvertError::InvalidDimensions);
    }
    if width > u32::MAX as usize || height > u32::MAX as usize {
        assert(width * height > u32::MAX) by (nonlinear_arith)
            requires
                width >= 1,
                height >= 1,
                width > u32::MAX || height > u32::MAX,
        ;
        return Err(ConvertError::InvalidDimensions);
    }
    assert(width * height <= 0xffff_ffff * 0xffff_ffff) by (nonlinear_arith)
        requires
            width <= 0xffff_ffffusize,
            height <= 0xffff_ffffusize,
    ;
    if (width as u64) * (height as u64) > u32::MAX as u64 {
        return Err(ConvertError::InvalidDimensions);
    }
    let font = match load_font(font_data, font_size) {
        Ok(font) => font,
        Err(_) => return Err(ConvertError::FontLoad),
    };
    let white = draw_text(&font, text, width as u32, height as u32);
    let f = pack_coverage(white.as_slice());
    proof {
        if text@.len() == 0 {
            assert(white@ =~= Seq::new((width * height) as nat, |p: int| true));
        }
    }
    Ok(f)
}

/// Centring leaves balanced margins: a picture fitted into a canvas (no side
/// larger, one side equal) sits inside it, and on each axis the margin after
/// it is the margin before it or one pixel more.
pub proof fn lemma_center_margins_balanced(cw: int, ch: int, w: int, h: int)
    requires
        1 <= w <= cw,
        1 <= h <= ch,
        w == cw || h == ch,
    ensures
        ({
            let (ox, oy) = center_origin(cw, ch, w, h);
            &&& 0 <= ox && ox + w <= cw
            &&& 0 <= oy && oy + h <= ch
            &&& 0 <= (cw - w - ox) - ox <= 1
            &&& 0 <= (ch - h - oy) - oy <= 1
        }),
{
}

/// Under automatic rotation an image whose orientation differs from the
/// display's is turned exactly once, a quarter turn, and is then oriented as
/// the display is.
pub proof fn lemma_automatic_rotation_matches_display(src: Raster, options: EpdImageOptions)
    requires
        options.rotation_mode == RotationMode::Automatic,
        src.width != src.height,
        options.epd_width != options.epd_height,
        (src.width < src.height) == (options.epd_width > options.epd_height),
    ensures
        needs_rotation(
            options.rotation_mode,
            src.width as int,
            src.height as int,
            options.epd_width as int,
            options.epd_height as int,
        ),
        oriented(src, options) == (Raster {
            width: src.height,
            height: src.width,
            pixels: rotated_pixels(src.pixels, src.width as int, src.height as int),
        }),
        (oriented(src, options).width > oriented(src, options).height) == (options.epd_width
            > options.epd_height),
{
}

} // verus!
