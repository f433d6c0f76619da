//! The frame buffer of the panel: 128 by 64 pixels, one bit each, row by
//! row, eight pixels per byte with the most significant bit first.
//!
//! Composition happens in memory and fails only for a primitive that does
//! not lie inside the panel. Writing the frame to the bus is the host's
//! part.

use crate::bitmap::{unpacked, Bitmap, BitmapView};
use crate::bits::{
    all_off, bit_of, get_pixel, lemma_byte_zero, packed_len, pixel_at, set_pixel,
};
use crate::luma::lemma_index_in_grid;
use crate::error::DisplayError;
use crate::text::{
    measure_text, rasterize_text, text_fits, text_raster, Extent, MAX_TEXT_CHARS,
};
use vstd::prelude::*;
use vstd::string::StrSliceExecFns;

verus! {

/// Columns of the panel.
pub const PANEL_WIDTH: u32 = 128;

/// Rows of the panel.
pub const PANEL_HEIGHT: u32 = 64;

/// Bytes of a frame: `PANEL_WIDTH * PANEL_HEIGHT / 8`.
pub const FRAME_BYTES: usize = 1024;

/// The frame in which no pixel is on.
pub open spec fn blank_frame() -> Seq<u8> {
    Seq::new(FRAME_BYTES as nat, |index: int| 0u8)
}

/// The pixels of a frame given by its bytes.
pub open spec fn frame_pixels(bytes: Seq<u8>) -> BitmapView {
    unpacked(bytes, PANEL_WIDTH as int, PANEL_HEIGHT as int)
}

/// A bitmap at `(x, y)` lies inside the panel.
pub open spec fn bitmap_fits(bitmap: BitmapView, x: int, y: int) -> bool {
    x + bitmap.width <= PANEL_WIDTH && y + bitmap.height <= PANEL_HEIGHT
}

/// The frame after a bitmap was drawn with its upper left corner at
/// `(x, y)`: where the bitmap lies, its pixels replace those of the frame,
/// on or off.
pub open spec fn blitted(frame: BitmapView, bitmap: BitmapView, x: int, y: int) -> BitmapView {
    BitmapView {
        width: frame.width,
        height: frame.height,
        pixels: Seq::new(
            frame.pixels.len(),
            |index: int|
                {
                    let column = index % frame.width;
                    let row = index / frame.width;
                    if x <= column < x + bitmap.width && y <= row < y + bitmap.height {
                        bitmap.pixel(column - x, row - y)
                    } else {
                        frame.pixels[index]
                    }
                },
        ),
    }
}

/// Two frames laid over each other: a pixel is on where it is on in either.
pub open spec fn merged(frame: Seq<u8>, raster: Seq<u8>) -> Seq<u8> {
    Seq::new(frame.len(), |index: int| frame[index] | raster[index])
}

proof fn lemma_or_bit(a: u8, b: u8, q: u8)
    by (bit_vector)
    requires
        q < 8,
    ensures
        (((a | b) >> q) & 1u8 == 1u8) == (((a >> q) & 1u8 == 1u8) || ((b >> q) & 1u8 == 1u8)),
{
}

/// A pixel of two merged frames is on exactly if it is on in one of them.
pub proof fn lemma_merged_pixel(frame: Seq<u8>, raster: Seq<u8>, index: int)
    requires
        frame.len() == raster.len(),
        0 <= index < 8 * frame.len(),
    ensures
        pixel_at(merged(frame, raster), index) == (pixel_at(frame, index) || pixel_at(
            raster,
            index,
        )),
{
    lemma_or_bit(frame[index / 8], raster[index / 8], (7 - index % 8) as u8);
}

/// No pixel of the blank frame is on.
pub proof fn lemma_blank_frame_is_off()
    ensures
        all_off(blank_frame()),
        forall|index: int|
            0 <= index < PANEL_WIDTH * PANEL_HEIGHT ==> !#[trigger] frame_pixels(
                blank_frame(),
            ).pixels[index],
{
    lemma_byte_zero(0u8);
    assert forall|index: int| 0 <= index < 8 * blank_frame().len() implies !#[trigger] pixel_at(
        blank_frame(),
        index,
    ) by {
        assert(blank_frame()[index / 8] == 0u8);
        assert(!bit_of(0u8, 7 - index % 8));
    }
}

/// A frame holds the pixels of the panel, eight to a byte and none to
/// spare.
pub proof fn lemma_frame_holds_panel()
    ensures
        FRAME_BYTES == packed_len(PANEL_WIDTH * PANEL_HEIGHT),
        8 * FRAME_BYTES == PANEL_WIDTH * PANEL_HEIGHT,
{
}

/// A bitmap drawn at the origin of the blank frame: the pixel at `(x, y)`
/// of the frame is on exactly if it lies inside the bitmap and is on there.
pub proof fn lemma_drawn_on_blank(bitmap: BitmapView, x: int, y: int)
    requires
        0 <= bitmap.width,
        0 <= bitmap.height,
        0 <= x < PANEL_WIDTH,
        0 <= y < PANEL_HEIGHT,
    ensures
        blitted(frame_pixels(blank_frame()), bitmap, 0, 0).pixel(x, y) == (x < bitmap.width && y
            < bitmap.height && bitmap.pixel(x, y)),
{
    lemma_blank_frame_is_off();
    lemma_index_in_grid(x, y, PANEL_WIDTH as int, PANEL_HEIGHT as int);
}

/// Whether frame pixel `index` has been written once the rows above `row`
/// of a bitmap at `(x, y)` are drawn and `column` pixels of row `row`.
spec fn drawn(bitmap: BitmapView, x: int, y: int, row: int, column: int, index: int) -> bool {
    let c = index % (PANEL_WIDTH as int) - x;
    let r = index / (PANEL_WIDTH as int) - y;
    0 <= c < bitmap.width && 0 <= r < bitmap.height && (r < row || (r == row && c < column))
}

/// The index of the pixel at column `x` of row `y` in a frame.
fn frame_index(x: u32, y: u32) -> (index: u64)
    requires
        x < PANEL_WIDTH,
        y < PANEL_HEIGHT,
    ensures
        index == x + y * 128,
        index < 8 * FRAME_BYTES,
{
    assert(y * PANEL_WIDTH == y * 128) by (nonlinear_arith)
        requires
            PANEL_WIDTH == 128,
    ;
    x as u64 + y as u64 * PANEL_WIDTH as u64
}

/// The off-screen pixel buffer of the panel.
#[derive(Debug)]
pub struct FrameBuffer {
    data: Vec<u8>,
}

impl View for FrameBuffer {
    type V = BitmapView;

    open spec fn view(&self) -> BitmapView {
        frame_pixels(self.bytes())
    }
}

impl FrameBuffer {
    /// The buffer holds one frame. Every frame buffer is well formed.
    #[verifier::type_invariant]
    pub closed spec fn well_formed(self) -> bool {
        self.data@.len() == FRAME_BYTES
    }

    /// A well-formed frame buffer has as many bytes as a frame.
    pub proof fn lemma_frame_length(self)
        requires
            self.well_formed(),
        ensures
            self.bytes().len() == FRAME_BYTES,
    {
    }

    /// The bytes of the frame, as they go to the panel.
    pub closed spec fn bytes(&self) -> Seq<u8> {
        self.data@
    }

    /// A frame buffer in which no pixel is on.
    pub fn new() -> (frame: FrameBuffer)
        ensures
            frame.bytes() == blank_frame(),
    {
        let data: Vec<u8> = vec![0u8; FRAME_BYTES];
        assert(data@ =~= blank_frame());
        FrameBuffer { data }
    }

    /// Turns every pixel off.
    pub fn clear(&mut self)
        ensures
            final(self).bytes() == blank_frame(),
    {
        proof {
            use_type_invariant(&*self);
        }
        let mut index: usize = 0;
        while index < FRAME_BYTES
            invariant
                index <= FRAME_BYTES,
                self.data@.len() == FRAME_BYTES,
                forall|k: int| 0 <= k < index ==> self.data@[k] == 0u8,
            decreases FRAME_BYTES - index,
        {
            self.data[index] = 0u8;
            index = index + 1;
        }
        assert(self.data@ =~= blank_frame());
    }

    /// A copy of the bytes of the frame, as they go to the panel.
    pub fn to_bytes(&self) -> (bytes: Vec<u8>)
        ensures
            bytes@ == self.bytes(),
            bytes@.len() == FRAME_BYTES,
    {
        proof {
            use_type_invariant(self);
        }
        let bytes: Vec<u8> = self.data.clone();
        assert(bytes@ =~= self.data@);
        bytes
    }

    /// Whether the pixel at column `x` of row `y` is on.
    pub fn pixel(&self, x: u32, y: u32) -> (on: bool)
        requires
            x < PANEL_WIDTH,
            y < PANEL_HEIGHT,
        ensures
            on == self@.pixel(x as int, y as int),
    {
        proof {
            use_type_invariant(self);
        }
        get_pixel(&self.data, frame_index(x, y))
    }

    /// Draws a bitmap with its upper left corner at `(x, y)`.
    ///
    /// A bitmap that does not lie inside the panel is rejected, and the
    /// frame stays as it was.
    pub fn draw_bitmap(&mut self, bitmap: &Bitmap, x: u32, y: u32) -> (result: Result<
        (),
        DisplayError,
    >)
        ensures
            result is Ok <==> bitmap_fits(bitmap@, x as int, y as int),
            result matches Err(e) ==> e == DisplayError::Geometry && final(self).bytes() == old(
                self,
            ).bytes(),
            result is Ok ==> final(self)@ == blitted(old(self)@, bitmap@, x as int, y as int),
    {
        proof {
            use_type_invariant(&*self);
        }
        let width: u32 = bitmap.width();
        let height: u32 = bitmap.height();
        if x > PANEL_WIDTH || width > PANEL_WIDTH - x || y > PANEL_HEIGHT || height > PANEL_HEIGHT
            - y {
            return Err(DisplayError::Geometry);
        }
        let ghost before = self.data@;
        let mut row: u32 = 0;
        while row < height
            invariant
                row <= height,
                width == bitmap@.width,
                height == bitmap@.height,
                x + width <= PANEL_WIDTH,
                y + height <= PANEL_HEIGHT,
                self.data@.len() == FRAME_BYTES,
                before.len() == FRAME_BYTES,
                forall|k: int|
                    0 <= k < 8 * FRAME_BYTES ==> #[trigger] pixel_at(self.data@, k) == (if drawn(
                        bitmap@,
                        x as int,
                        y as int,
                        row as int,
                        0,
                        k,
                    ) {
                        bitmap@.pixel(k % (PANEL_WIDTH as int) - x, k / (PANEL_WIDTH as int) - y)
                    } else {
                        pixel_at(before, k)
                    }),
            decreases height - row,
        {
            let mut column: u32 = 0;
            while column < width
                invariant
                    row < height,
                    column <= width,
                    width == bitmap@.width,
                    height == bitmap@.height,
                    x + width <= PANEL_WIDTH,
                    y + height <= PANEL_HEIGHT,
                    self.data@.len() == FRAME_BYTES,
                    before.len() == FRAME_BYTES,
                    forall|k: int|
                        0 <= k < 8 * FRAME_BYTES ==> #[trigger] pixel_at(self.data@, k) == (if drawn(
                            bitmap@,
                            x as int,
                            y as int,
                            row as int,
                            column as int,
                            k,
                        ) {
                            bitmap@.pixel(
                                k % (PANEL_WIDTH as int) - x,
                                k / (PANEL_WIDTH as int) - y,
                            )
                        } else {
                            pixel_at(before, k)
                        }),
                decreases width - column,
            {
                let on: bool = bitmap.pixel(column, row);
                let index: u64 = frame_index(x + column, y + row);
                set_pixel(&mut self.data, index, on);
                column = column + 1;
            }
            row = row + 1;
        }
        proof {
            assert(self@.pixels =~= blitted(
                frame_pixels(before),
                bitmap@,
                x as int,
                y as int,
            ).pixels);
        }
        Ok(())
    }

    /// Lays a rendered primitive over the frame: `raster` holds its
    /// pixels in the format of a frame, `extent` is its bounding box.
    ///
    /// A primitive whose bounding box does not lie inside the panel, or
    /// whose raster is not a frame, is rejected, and the frame stays as it
    /// was.
    pub fn compose_raster(&mut self, extent: Extent, raster: &Vec<u8>) -> (result: Result<
        (),
        DisplayError,
    >)
        ensures
            result is Ok <==> extent.fits_panel() && raster@.len() == FRAME_BYTES,
            result matches Err(e) ==> e == DisplayError::Geometry && final(self).bytes() == old(
                self,
            ).bytes(),
            result is Ok ==> final(self).bytes() == merged(old(self).bytes(), raster@),
    {
        proof {
            use_type_invariant(&*self);
        }
        if !extent.is_inside_panel() || raster.len() != FRAME_BYTES {
            return Err(DisplayError::Geometry);
        }
        let ghost before = self.data@;
        let mut index: usize = 0;
        while index < FRAME_BYTES
            invariant
                index <= FRAME_BYTES,
                self.data@.len() == FRAME_BYTES,
                raster@.len() == FRAME_BYTES,
                before.len() == FRAME_BYTES,
                forall|k: int| 0 <= k < index ==> self.data@[k] == before[k] | raster@[k],
                forall|k: int| index <= k < FRAME_BYTES ==> self.data@[k] == before[k],
            decreases FRAME_BYTES - index,
        {
            let byte: u8 = self.data[index] | raster[index];
            self.data[index] = byte;
            index = index + 1;
        }
        assert(self.data@ =~= merged(before, raster@));
        Ok(())
    }

    /// Draws a text in the panel's font, the upper left corner of its
    /// first glyph at `(x, y)`. The pixels of the glyphs are turned on; no
    /// pixel is turned off.
    ///
    /// A text that cannot be laid out inside the panel is rejected, and the
    /// frame stays as it was.
    pub fn draw_text(&mut self, text: &str, x: u32, y: u32) -> (result: Result<(), DisplayError>)
        ensures
            result is Ok <==> text_fits(text@, x as int, y as int),
            result matches Err(e) ==> e == DisplayError::Geometry && final(self).bytes() == old(
                self,
            ).bytes(),
            result is Ok ==> final(self).bytes() == merged(
                old(self).bytes(),
                text_raster(text@, x as int, y as int),
            ) && text_raster(text@, x as int, y as int).len() == FRAME_BYTES,
    {
        if x >= PANEL_WIDTH || y >= PANEL_HEIGHT || text.unicode_len() > MAX_TEXT_CHARS {
            return Err(DisplayError::Geometry);
        }
        let extent: Extent = measure_text(text, x, y);
        if !extent.is_inside_panel() {
            return Err(DisplayError::Geometry);
        }
        let raster: Vec<u8> = rasterize_text(text, x, y);
        self.compose_raster(extent, &raster)
    }
}

} // verus!
