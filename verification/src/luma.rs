//! Grayscale images: one 8-bit luma sample per pixel, row by row.

use vstd::prelude::*;

verus! {

/// The mathematical model of a grayscale image.
pub struct GrayView {
    pub width: int,
    pub height: int,
    /// The samples in row-major order: the sample of `(x, y)` is at `x + y * width`.
    pub pixels: Seq<u8>,
}

impl GrayView {
    /// The image holds one sample for each of its pixels.
    pub open spec fn wf(self) -> bool {
        &&& 0 <= self.width <= u32::MAX
        &&& 0 <= self.height <= u32::MAX
        &&& self.pixels.len() == self.width * self.height
    }

    /// The sample at column `x` of row `y`.
    pub open spec fn luma(self, x: int, y: int) -> u8 {
        self.pixels[x + y * self.width]
    }
}

/// An image with 8-bit luma samples, 0 for black and 255 for white. The
/// image may be empty.
#[derive(Debug)]
pub struct GrayImage {
    width: u32,
    height: u32,
    pixels: Vec<u8>,
}

/// `x + y * width` addresses a sample of a `width` by `height` grid, and
/// no other pair of coordinates has that index.
pub proof fn lemma_index_in_grid(x: int, y: int, width: int, height: int)
    requires
        0 <= x < width,
        0 <= y < height,
    ensures
        0 <= y * width <= x + y * width < width * height,
        (x + y * width) % width == x,
        (x + y * width) / width == y,
{
    assert(0 <= y * width && y * width + width <= width * height) by (nonlinear_arith)
        requires
            0 <= y < height,
            0 < width,
    ;
    vstd::arithmetic::div_mod::lemma_fundamental_div_mod_converse(x + y * width, width, y, x);
}

/// The product of two bounded naturals is bounded by the product of the bounds.
pub proof fn lemma_product_bound(a: int, b: int, a_max: int, b_max: int)
    by (nonlinear_arith)
    requires
        0 <= a <= a_max,
        0 <= b <= b_max,
    ensures
        0 <= a * b <= a_max * b_max,
{
}

impl View for GrayImage {
    type V = GrayView;

    closed spec fn view(&self) -> GrayView {
        GrayView { width: self.width as int, height: self.height as int, pixels: self.pixels@ }
    }
}

impl GrayImage {
    #[verifier::type_invariant]
    spec fn inv(self) -> bool {
        self.pixels@.len() == self.width * self.height
    }

    /// An image of `width` by `height` pixels over the given samples, if
    /// there is exactly one sample for each pixel.
    pub fn new(width: u32, height: u32, pixels: Vec<u8>) -> (image: Option<GrayImage>)
        ensures
            image is Some <==> pixels@.len() == width * height,
            image matches Some(img) ==> img@ == (GrayView {
                width: width as int,
                height: height as int,
                pixels: pixels@,
            }),
    {
        proof {
            lemma_product_bound(width as int, height as int, u32::MAX as int, u32::MAX as int);
        }
        if pixels.len() as u64 == width as u64 * height as u64 {
            Some(GrayImage { width, height, pixels })
        } else {
            None
        }
    }

    pub fn width(&self) -> (w: u32)
        ensures
            w == self@.width,
            self@.wf(),
    {
        proof {
            use_type_invariant(self);
        }
        self.width
    }

    pub fn height(&self) -> (h: u32)
        ensures
            h == self@.height,
            self@.wf(),
    {
        proof {
            use_type_invariant(self);
        }
        self.height
    }

    /// The samples in row-major order.
    pub fn as_raw(&self) -> (pixels: &Vec<u8>)
        ensures
            pixels@ == self@.pixels,
            self@.wf(),
    {
        proof {
            use_type_invariant(self);
        }
        &self.pixels
    }

    /// The sample at column `x` of row `y`.
    pub fn luma(&self, x: u32, y: u32) -> (l: u8)
        requires
            x < self@.width,
            y < self@.height,
        ensures
            l == self@.luma(x as int, y as int),
    {
        proof {
            use_type_invariant(self);
            lemma_index_in_grid(x as int, y as int, self.width as int, self.height as int);
            assert(self.pixels.len() == self.width * self.height);
        }
        self.pixels[x as usize + y as usize * self.width as usize]
    }
}

} // verus!
