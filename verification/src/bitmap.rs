//! Packed monochrome bitmaps.

use crate::bits::{get_pixel, packed_len, pixel_at};
use crate::luma::{lemma_index_in_grid, lemma_product_bound};
use vstd::prelude::*;

verus! {

/// The mathematical model of a monochrome bitmap.
pub struct BitmapView {
    pub width: int,
    pub height: int,
    /// The pixels in row-major order, `true` for on: the pixel of `(x, y)`
    /// is at `x + y * width`.
    pub pixels: Seq<bool>,
}

impl BitmapView {
    /// The bitmap holds one entry for each of its pixels.
    pub open spec fn wf(self) -> bool {
        &&& 0 <= self.width <= u32::MAX
        &&& 0 <= self.height <= u32::MAX
        &&& self.pixels.len() == self.width * self.height
    }

    /// The pixel at column `x` of row `y`.
    pub open spec fn pixel(self, x: int, y: int) -> bool {
        self.pixels[x + y * self.width]
    }
}

/// The bitmap that a packed buffer holds: pixel `index` is bit
/// `7 - index % 8` of byte `index / 8`.
pub open spec fn unpacked(bytes: Seq<u8>, width: int, height: int) -> BitmapView {
    BitmapView {
        width,
        height,
        pixels: Seq::new((width * height) as nat, |index: int| pixel_at(bytes, index)),
    }
}

/// A bitmap in the panel's format: one bit per pixel, row-major, eight
/// pixels per byte, the most significant bit first. Rows are not aligned to
/// bytes: the buffer holds `ceil(width * height / 8)` bytes.
#[derive(Debug)]
pub struct Bitmap {
    width: u32,
    height: u32,
    data: Vec<u8>,
}

impl View for Bitmap {
    type V = BitmapView;

    open spec fn view(&self) -> BitmapView {
        unpacked(self.bytes(), self.spec_width() as int, self.spec_height() as int)
    }
}

impl Bitmap {
    #[verifier::type_invariant]
    spec fn inv(self) -> bool {
        self.data@.len() == packed_len(self.width * self.height)
    }

    /// The packed buffer.
    pub closed spec fn bytes(&self) -> Seq<u8> {
        self.data@
    }

    pub closed spec fn spec_width(&self) -> u32 {
        self.width
    }

    pub closed spec fn spec_height(&self) -> u32 {
        self.height
    }

    /// A bitmap of `width` by `height` pixels over a packed buffer, if the
    /// buffer has the length that these dimensions ask for.
    pub fn from_packed(width: u32, height: u32, data: Vec<u8>) -> (bitmap: Option<Bitmap>)
        ensures
            bitmap is Some <==> data@.len() == packed_len(width * height),
            bitmap matches Some(b) ==> b.bytes() == data@ && b@ == unpacked(
                data@,
                width as int,
                height as int,
            ),
    {
        proof {
            lemma_product_bound(width as int, height as int, u32::MAX as int, u32::MAX as int);
        }
        let pixels: u64 = width as u64 * height as u64;
        let bytes: u64 = pixels / 8 + (if pixels % 8 == 0 {
            0
        } else {
            1
        });
        if data.len() as u64 == bytes {
            Some(Bitmap { width, height, data })
        } else {
            None
        }
    }

    #[verifier::when_used_as_spec(spec_width)]
    pub fn width(&self) -> (w: u32)
        ensures
            w == self.spec_width(),
            self@.wf(),
            self.bytes().len() == packed_len(self@.width * self@.height),
    {
        proof {
            use_type_invariant(self);
        }
        self.width
    }

    #[verifier::when_used_as_spec(spec_height)]
    pub fn height(&self) -> (h: u32)
        ensures
            h == self.spec_height(),
            self@.wf(),
            self.bytes().len() == packed_len(self@.width * self@.height),
    {
        proof {
            use_type_invariant(self);
        }
        self.height
    }

    /// The packed buffer.
    pub fn as_bytes(&self) -> (bytes: &Vec<u8>)
        ensures
            bytes@ == self.bytes(),
            self@.wf(),
            self.bytes().len() == packed_len(self@.width * self@.height),
    {
        proof {
            use_type_invariant(self);
        }
        &self.data
    }

    /// Whether the pixel at column `x` of row `y` is on.
    pub fn pixel(&self, x: u32, y: u32) -> (on: bool)
        requires
            x < self@.width,
            y < self@.height,
        ensures
            on == self@.pixel(x as int, y as int),
    {
        proof {
            use_type_invariant(self);
            lemma_index_in_grid(x as int, y as int, self.width as int, self.height as int);
            lemma_product_bound(
                self.width as int,
                self.height as int,
                u32::MAX as int,
                u32::MAX as int,
            );
        }
        get_pixel(&self.data, x as u64 + y as u64 * self.width as u64)
    }
}

} // verus!
