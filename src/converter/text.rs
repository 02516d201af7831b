//! Text rendering, borrowed from the `ril` crate.
use ril::{BitPixel, Draw, Font, Image, TextSegment};
use vstd::prelude::*;

verus! {

#[verifier::external_type_specification]
#[verifier::external_body]
pub struct ExFont(Font);

#[verifier::external_type_specification]
#[verifier::external_body]
pub struct ExRilError(ril::Error);

/// Whether `ril` (through `fontdue`) parses the bytes as a font at the given
/// point size.
pub uninterp spec fn font_parses(data: Seq<u8>, size: u16) -> bool;

/// Relies on `ril::Font::from_bytes`: parses a TrueType or OpenType font and
/// sets the point size that it rasterises best at.
#[verifier::external_body]
pub(crate) fn load_font(data: &[u8], size: u16) -> (r: Result<Font, ril::Error>)
    ensures
        r is Ok <==> font_parses(data@, size),
{
    Font::from_bytes(data, size.into())
}

/// Relies on `ril::Image::new`, `ril::TextSegment` and its `Draw::draw`: a
/// white canvas of the given size with the text drawn in black from its top
/// left corner. The result holds, row by row, whether each pixel stayed white;
/// with no text nothing is drawn.
/// The canvas size is a `u32` product, and `Image::new` rejects a zero side.
#[verifier::external_body]
pub(crate) fn draw_text(font: &Font, text: &str, width: u32, height: u32) -> (r: Vec<bool>)
    requires
        width >= 1,
        height >= 1,
        width * height <= u32::MAX,
    ensures
        r@.len() == width * height,
        text@.len() == 0 ==> forall|p: int| 0 <= p < r@.len() ==> #[trigger] r@[p],
{
    let mut canvas = Image::new(width, height, BitPixel::new(true));
    TextSegment::new(font, text, BitPixel::new(false)).with_position(0, 0).draw(&mut canvas);
    canvas.data.iter().map(|p| p.value()).collect()
}

} // verus!
