//! Text as the panel shows it: the glyphs of a fixed 4 by 6 pixel font,
//! rendered by `embedded_graphics`.

use crate::frame::{FRAME_BYTES, PANEL_HEIGHT, PANEL_WIDTH};
use embedded_graphics::framebuffer::Framebuffer;
use embedded_graphics::geometry::{Dimensions, Point};
use embedded_graphics::mono_font::ascii::FONT_4X6;
use embedded_graphics::mono_font::MonoTextStyle;
use embedded_graphics::pixelcolor::raw::{LittleEndian, RawU1};
use embedded_graphics::pixelcolor::BinaryColor;
use embedded_graphics::text::{Baseline, Text};
use embedded_graphics::Drawable;
use vstd::prelude::*;

verus! {

/// The longest text, in characters, that is laid out. The renderer places
/// glyphs with 32-bit coordinates, at four columns to a character and six
/// rows to a line; up to this length no coordinate can leave their range.
pub const MAX_TEXT_CHARS: usize = 0x00FF_FFFF;

/// Columns of the renderer's frame buffer: those of the panel.
const RASTER_COLUMNS: usize = 128;

/// Rows of the renderer's frame buffer: those of the panel.
const RASTER_ROWS: usize = 64;

/// A rectangle on the pixel grid, possibly outside the panel.
#[derive(Clone, Copy, Debug, PartialEq, Eq, Structural)]
pub struct Extent {
    pub left: i32,
    pub top: i32,
    pub width: u32,
    pub height: u32,
}

impl Extent {
    /// The rectangle lies inside the panel.
    pub open spec fn fits_panel(self) -> bool {
        extent_fits((self.left as int, self.top as int, self.width as int, self.height as int))
    }

    /// Whether the rectangle lies inside the panel.
    pub fn is_inside_panel(&self) -> (inside: bool)
        ensures
            inside == self.fits_panel(),
    {
        self.left >= 0 && self.top >= 0 && self.left as u64 + self.width as u64
            <= PANEL_WIDTH as u64 && self.top as u64 + self.height as u64 <= PANEL_HEIGHT as u64
    }
}

/// A rectangle, given as left, top, width and height, lies inside the panel.
pub open spec fn extent_fits(extent: (int, int, int, int)) -> bool {
    &&& 0 <= extent.0
    &&& 0 <= extent.1
    &&& extent.0 + extent.2 <= PANEL_WIDTH
    &&& extent.1 + extent.3 <= PANEL_HEIGHT
}

/// The bounding box, as left, top, width and height, that
/// `embedded_graphics` gives for `text` in the font `FONT_4X6` with the
/// upper left corner of its first glyph at `(x, y)`.
pub uninterp spec fn text_extent(text: Seq<char>, x: int, y: int) -> (int, int, int, int);

/// The frame, in the panel's packed format, that holds the pixels that
/// `embedded_graphics` sets inside the panel when it draws `text` in the
/// font `FONT_4X6` with the upper left corner of its first glyph at
/// `(x, y)`, and no other pixel.
pub uninterp spec fn text_raster(text: Seq<char>, x: int, y: int) -> Seq<u8>;

/// A text can be laid out from `(x, y)`: the point lies on the panel, the
/// text is not longer than `MAX_TEXT_CHARS`, and its bounding box lies
/// inside the panel.
pub open spec fn text_fits(text: Seq<char>, x: int, y: int) -> bool {
    &&& 0 <= x < PANEL_WIDTH
    &&& 0 <= y < PANEL_HEIGHT
    &&& text.len() <= MAX_TEXT_CHARS
    &&& extent_fits(text_extent(text, x, y))
}

/// Calls `Dimensions::bounding_box` of `embedded_graphics` on the text in
/// the font `FONT_4X6`, laid out from `(x, y)` with the baseline `Top`, and
/// hands back the rectangle's corner and size. The rectangle depends on the
/// arguments alone.
#[verifier::external_body]
pub(crate) fn measure_text(text: &str, x: u32, y: u32) -> (extent: Extent)
    requires
        x < PANEL_WIDTH,
        y < PANEL_HEIGHT,
        text@.len() <= MAX_TEXT_CHARS,
    ensures
        (extent.left as int, extent.top as int, extent.width as int, extent.height as int)
            == text_extent(text@, x as int, y as int),
{
    let style = MonoTextStyle::new(&FONT_4X6, BinaryColor::On);
    let origin = Point::new(x as i32, y as i32);
    let area = Text::with_baseline(text, origin, style, Baseline::Top).bounding_box();
    Extent {
        left: area.top_left.x,
        top: area.top_left.y,
        width: area.size.width,
        height: area.size.height,
    }
}

/// Calls `Drawable::draw` of `embedded_graphics` on the text in the font
/// `FONT_4X6` and the colour `On`, laid out from `(x, y)` with the baseline
/// `Top`, with a blank `Framebuffer` of the panel's dimensions as the
/// target, and hands back the bytes of that frame buffer: as many as a
/// frame has, and dependent on the arguments alone.
#[verifier::external_body]
pub(crate) fn rasterize_text(text: &str, x: u32, y: u32) -> (raster: Vec<u8>)
    requires
        x < PANEL_WIDTH,
        y < PANEL_HEIGHT,
        text@.len() <= MAX_TEXT_CHARS,
    ensures
        raster@ == text_raster(text@, x as int, y as int),
        raster@.len() == FRAME_BYTES,
{
    let style = MonoTextStyle::new(&FONT_4X6, BinaryColor::On);
    let origin = Point::new(x as i32, y as i32);
    let mut target =
        Framebuffer::<BinaryColor, RawU1, LittleEndian, RASTER_COLUMNS, RASTER_ROWS, FRAME_BYTES>::new();
    let _ = Text::with_baseline(text, origin, style, Baseline::Top).draw(&mut target);
    target.data().to_vec()
}

} // verus!
