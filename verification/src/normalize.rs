//! The image normalizer: brings a grayscale image of any size into the
//! panel's packed format.
//!
//! The image is first fitted to the target dimensions, by centring it on a
//! black canvas where it is not larger than the target, and by
//! nearest-neighbour sampling where it is. Then each sample is compared with
//! the threshold and the outcomes are packed, eight to a byte.

use crate::bitmap::{Bitmap, BitmapView};
use crate::bits::{packed_len, pixel_at, set_pixel};
use crate::error::DisplayError;
use crate::luma::{lemma_index_in_grid, lemma_product_bound, GrayImage, GrayView};
use image::imageops::FilterType;
use image::{ImageBuffer, Luma};
use vstd::prelude::*;

verus! {

/// A pixel is on if its luma is strictly greater than this.
pub const THRESHOLD: u8 = 128;

/// The luma of the canvas around a centred image: black.
pub const BACKGROUND: u8 = 0;

/// Whether a sample of the given luma becomes a pixel that is on.
pub open spec fn is_on(luma: u8) -> bool {
    luma > THRESHOLD
}

/// The target dimension for a source dimension: the next multiple of 8
/// that is strictly greater. A dimension that is a multiple of 8 already
/// grows by a full 8, so the target always exceeds the source.
pub open spec fn target_dimension(dim: int) -> int {
    dim + 8 - dim % 8
}

/// The bitmap with a pixel on wherever the image is above the threshold.
pub open spec fn binarized(image: GrayView) -> BitmapView {
    BitmapView {
        width: image.width,
        height: image.height,
        pixels: Seq::new(image.pixels.len(), |index: int| is_on(image.pixels[index])),
    }
}

/// The columns, or rows, that stay free before an image of extent `source`
/// centred in `target`: half of the difference, rounded down. The odd
/// pixel, if any, stays free behind the image.
pub open spec fn margin(source: int, target: int) -> int {
    (target - source) / 2
}

/// The image centred on a canvas of `width` by `height` black pixels.
pub open spec fn padded(image: GrayView, width: int, height: int) -> GrayView {
    let left = margin(image.width, width);
    let top = margin(image.height, height);
    GrayView {
        width,
        height,
        pixels: Seq::new(
            (width * height) as nat,
            |index: int|
                {
                    let x = index % width;
                    let y = index / width;
                    if left <= x < left + image.width && top <= y < top + image.height {
                        image.luma(x - left, y - top)
                    } else {
                        BACKGROUND
                    }
                },
        ),
    }
}

/// The samples of `top`, an image `top_width` wide and `top_height` high,
/// laid over the samples of `bottom`, an image `bottom_width` wide, with
/// the upper left corner of `top` at `(x, y)`.
pub open spec fn overlaid(
    bottom: Seq<u8>,
    bottom_width: int,
    top: Seq<u8>,
    top_width: int,
    top_height: int,
    x: int,
    y: int,
) -> Seq<u8> {
    Seq::new(
        bottom.len(),
        |index: int|
            {
                let column = index % bottom_width;
                let row = index / bottom_width;
                if x <= column < x + top_width && y <= row < y + top_height {
                    top[(column - x) + (row - y) * top_width]
                } else {
                    bottom[index]
                }
            },
    )
}

/// The samples that `image::imageops::resize` gives with the filter
/// `Nearest` for an image of `width` by `height` samples and the new
/// dimensions `new_width` and `new_height`.
pub uninterp spec fn nearest_samples(
    pixels: Seq<u8>,
    width: int,
    height: int,
    new_width: int,
    new_height: int,
) -> Seq<u8>;

/// The image sampled down, or up, to `width` by `height` pixels.
pub open spec fn resized(image: GrayView, width: int, height: int) -> GrayView {
    GrayView {
        width,
        height,
        pixels: nearest_samples(image.pixels, image.width, image.height, width, height),
    }
}

/// The image brought to `width` by `height` pixels: as it is where it has
/// these dimensions; centred on a black canvas where it exceeds the target
/// in neither axis; sampled where it exceeds the target in either axis.
pub open spec fn fitted(image: GrayView, width: int, height: int) -> GrayView {
    if image.width == width && image.height == height {
        image
    } else if image.width <= width && image.height <= height {
        padded(image, width, height)
    } else {
        resized(image, width, height)
    }
}

/// The packed bitmap of the image fitted to `width` by `height` pixels.
pub open spec fn normalized(image: GrayView, width: int, height: int) -> BitmapView {
    binarized(fitted(image, width, height))
}

/// What the address space allows: a buffer of `width * height` samples can
/// be allocated, and, where the image has to be sampled, so can the
/// intermediate image of `image_width * height` pixels of four 32-bit
/// channels each.
pub open spec fn within_memory(image_width: int, image_height: int, width: int, height: int) -> bool {
    &&& width * height <= isize::MAX
    &&& (image_width > width || image_height > height) ==> 16 * (image_width * height)
        <= isize::MAX
}

/// Calls `image::ImageBuffer::from_pixel` for an image of `width` by
/// `height` luma pixels and hands back its buffer: one sample for each
/// pixel, each equal to `luma`.
#[verifier::external_body]
fn uniform_samples(width: u32, height: u32, luma: u8) -> (pixels: Vec<u8>)
    requires
        width * height <= isize::MAX,
    ensures
        pixels@.len() == width * height,
        forall|index: int| 0 <= index < pixels@.len() ==> pixels@[index] == luma,
{
    ImageBuffer::from_pixel(width, height, Luma([luma])).into_raw()
}

/// Calls `image::imageops::overlay` on two luma images given by their
/// buffers, for a top image that lies inside the bottom image. A luma pixel
/// has no alpha channel, so the top sample replaces the bottom sample
/// wherever the top image lies, and no other sample changes.
#[verifier::external_body]
fn overlay_samples(
    bottom: Vec<u8>,
    bottom_width: u32,
    bottom_height: u32,
    top: &Vec<u8>,
    top_width: u32,
    top_height: u32,
    x: u32,
    y: u32,
) -> (pixels: Vec<u8>)
    requires
        bottom@.len() == bottom_width * bottom_height,
        top@.len() == top_width * top_height,
        x + top_width <= bottom_width,
        y + top_height <= bottom_height,
    ensures
        pixels@ == overlaid(
            bottom@,
            bottom_width as int,
            top@,
            top_width as int,
            top_height as int,
            x as int,
            y as int,
        ),
{
    let mut canvas: ImageBuffer<Luma<u8>, Vec<u8>> =
        ImageBuffer::from_raw(bottom_width, bottom_height, bottom).unwrap();
    let top: ImageBuffer<Luma<u8>, &[u8]> =
        ImageBuffer::from_raw(top_width, top_height, top.as_slice()).unwrap();
    image::imageops::overlay(&mut canvas, &top, x.into(), y.into());
    canvas.into_raw()
}

/// Calls `image::imageops::resize` with the filter `Nearest` on a luma
/// image that is not empty, given by its buffer, and hands back the buffer
/// of the new image: `new_width * new_height` samples, which depend on the
/// arguments alone.
#[verifier::external_body]
fn resize_samples(pixels: &Vec<u8>, width: u32, height: u32, new_width: u32, new_height: u32) -> (out:
    Vec<u8>)
    requires
        pixels@.len() == width * height,
        width > 0,
        height > 0,
        new_width > 0,
        new_height > 0,
        new_width * new_height <= isize::MAX,
        16 * (width * new_height) <= isize::MAX,
    ensures
        out@ == nearest_samples(
            pixels@,
            width as int,
            height as int,
            new_width as int,
            new_height as int,
        ),
        out@.len() == new_width * new_height,
{
    let source: ImageBuffer<Luma<u8>, &[u8]> =
        ImageBuffer::from_raw(width, height, pixels.as_slice()).unwrap();
    image::imageops::resize(&source, new_width, new_height, FilterType::Nearest).into_raw()
}

/// Whether a sample of the given luma becomes a pixel that is on: the
/// threshold is exclusive.
pub fn sample_is_on(luma: u8) -> (on: bool)
    ensures
        on == (luma > 128),
        on == is_on(luma),
{
    luma > THRESHOLD
}

/// Packs the image: pixel `x + y * width` of the result is on exactly
/// where the sample at `(x, y)` is above the threshold, and the bits behind
/// the last pixel, if any, are off.
pub fn binarize(image: &GrayImage) -> (bitmap: Bitmap)
    ensures
        bitmap@ == binarized(image@),
        bitmap.bytes().len() == packed_len(image@.width * image@.height),
        forall|index: int|
            image@.width * image@.height <= index < 8 * bitmap.bytes().len() ==> !#[trigger] pixel_at(
                bitmap.bytes(),
                index,
            ),
{
    let width: u32 = image.width();
    let height: u32 = image.height();
    let samples: &Vec<u8> = image.as_raw();
    let count: usize = samples.len();
    let size: usize = count / 8 + (if count % 8 == 0 {
        0
    } else {
        1
    });
    let mut data: Vec<u8> = vec![0u8; size];
    proof {
        assert forall|index: int| 0 <= index < 8 * data@.len() implies !#[trigger] pixel_at(
            data@,
            index,
        ) by {
            assert(data@[index / 8] == 0u8);
            crate::bits::lemma_byte_zero(0u8);
            assert(!crate::bits::bit_of(0u8, 7 - index % 8));
        }
    }
    let mut index: usize = 0;
    while index < count
        invariant
            index <= count,
            count == samples@.len(),
            data@.len() == size,
            size == packed_len(count as int),
            forall|k: int| 0 <= k < index ==> #[trigger] pixel_at(data@, k) == is_on(samples@[k]),
            forall|k: int| index <= k < 8 * size ==> !#[trigger] pixel_at(data@, k),
        decreases count - index,
    {
        if sample_is_on(samples[index]) {
            set_pixel(&mut data, index as u64, true);
        }
        index = index + 1;
    }
    let bitmap = Bitmap::from_packed(width, height, data).unwrap();
    proof {
        assert(bitmap@.pixels =~= binarized(image@).pixels);
    }
    bitmap
}

/// Centres the image on a black canvas of `width` by `height` pixels.
pub fn pad(image: &GrayImage, width: u32, height: u32) -> (canvas: GrayImage)
    requires
        image@.width <= width,
        image@.height <= height,
        width * height <= isize::MAX,
    ensures
        canvas@ == padded(image@, width as int, height as int),
{
    let left: u32 = (width - image.width()) / 2;
    let top: u32 = (height - image.height()) / 2;
    let blank: Vec<u8> = uniform_samples(width, height, BACKGROUND);
    let pixels: Vec<u8> = overlay_samples(
        blank,
        width,
        height,
        image.as_raw(),
        image.width(),
        image.height(),
        left,
        top,
    );
    proof {
        assert(pixels@ =~= padded(image@, width as int, height as int).pixels);
    }
    GrayImage::new(width, height, pixels).unwrap()
}

/// Samples the image to `width` by `height` pixels, each taken from the
/// nearest pixel of the image.
pub fn resize(image: &GrayImage, width: u32, height: u32) -> (sampled: GrayImage)
    requires
        image@.width > 0,
        image@.height > 0,
        width > 0,
        height > 0,
        width * height <= isize::MAX,
        16 * (image@.width * height) <= isize::MAX,
    ensures
        sampled@ == resized(image@, width as int, height as int),
{
    let pixels: Vec<u8> = resize_samples(
        image.as_raw(),
        image.width(),
        image.height(),
        width,
        height,
    );
    GrayImage::new(width, height, pixels).unwrap()
}

/// Whether the address space allows to normalize an image of
/// `image_width` by `image_height` pixels to `width` by `height` pixels.
pub fn fits_memory(image_width: u32, image_height: u32, width: u32, height: u32) -> (fits: bool)
    ensures
        fits == within_memory(
            image_width as int,
            image_height as int,
            width as int,
            height as int,
        ),
{
    proof {
        lemma_product_bound(width as int, height as int, u32::MAX as int, u32::MAX as int);
        lemma_product_bound(image_width as int, height as int, u32::MAX as int, u32::MAX as int);
    }
    let limit: u128 = isize::MAX as u128;
    let area: u128 = width as u128 * height as u128;
    let sampling: u128 = 16 * (image_width as u128 * height as u128);
    area <= limit && (!(image_width > width || image_height > height) || sampling <= limit)
}

/// Normalizes the image to a bitmap of `width` by `height` pixels.
///
/// An image or a target without pixels is rejected, and so is one for
/// which the address space is too small. Otherwise the image is fitted to
/// the target and packed: it is centred where it exceeds the target in
/// neither axis and sampled where it exceeds it in either.
pub fn normalize_to(image: &GrayImage, width: u32, height: u32) -> (result: Result<
    Bitmap,
    DisplayError,
>)
    ensures
        result is Err <==> (image@.width == 0 || image@.height == 0 || width == 0 || height == 0
            || !within_memory(image@.width, image@.height, width as int, height as int)),
        result matches Err(e) ==> e == DisplayError::InvalidDimensions,
        result matches Ok(bitmap) ==> {
            &&& bitmap@ == normalized(image@, width as int, height as int)
            &&& bitmap.bytes().len() == packed_len(width * height)
            &&& forall|index: int|
                width * height <= index < 8 * bitmap.bytes().len() ==> !#[trigger] pixel_at(
                    bitmap.bytes(),
                    index,
                )
        },
{
    let image_width: u32 = image.width();
    let image_height: u32 = image.height();
    if image_width == 0 || image_height == 0 || width == 0 || height == 0 {
        return Err(DisplayError::InvalidDimensions);
    }
    if !fits_memory(image_width, image_height, width, height) {
        return Err(DisplayError::InvalidDimensions);
    }
    if image_width == width && image_height == height {
        Ok(binarize(image))
    } else if image_width <= width && image_height <= height {
        let canvas: GrayImage = pad(image, width, height);
        Ok(binarize(&canvas))
    } else {
        let sampled: GrayImage = resize(image, width, height);
        Ok(binarize(&sampled))
    }
}

/// Whether the target dimensions of an image of `width` by `height`
/// pixels, and the canvas that has them, can be represented: the
/// dimensions as 32-bit numbers, the canvas in the address space.
pub open spec fn target_representable(width: int, height: int) -> bool {
    &&& target_dimension(width) <= u32::MAX
    &&& target_dimension(height) <= u32::MAX
    &&& target_dimension(width) * target_dimension(height) <= isize::MAX
}

/// Normalizes an image of any dimensions to a packed bitmap whose
/// dimensions are multiples of 8.
///
/// An image without pixels is rejected, and so is one whose target cannot
/// be represented. Otherwise each target dimension is the next multiple of
/// 8 strictly above the dimension of the image, the image is centred on a
/// black canvas of the target dimensions, and the canvas is packed: a pixel
/// is on where the luma is above the threshold.
pub fn convert_dynamic_image_to_binary_raw(image: &GrayImage) -> (result: Result<
    Bitmap,
    DisplayError,
>)
    ensures
        result is Err <==> (image@.width == 0 || image@.height == 0 || !target_representable(
            image@.width,
            image@.height,
        )),
        result matches Err(e) ==> e == DisplayError::InvalidDimensions,
        result matches Ok(bitmap) ==> {
            let width = target_dimension(image@.width);
            let height = target_dimension(image@.height);
            &&& bitmap@ == binarized(padded(image@, width, height))
            &&& bitmap@ == normalized(image@, width, height)
            &&& bitmap.bytes().len() == packed_len(width * height)
            &&& 8 * bitmap.bytes().len() == width * height
        },
{
    let width: u64 = image.width() as u64 + 8 - image.width() as u64 % 8;
    let height: u64 = image.height() as u64 + 8 - image.height() as u64 % 8;
    if image.width() == 0 || image.height() == 0 || width > u32::MAX as u64 || height
        > u32::MAX as u64 {
        return Err(DisplayError::InvalidDimensions);
    }
    proof {
        lemma_target_area(width as int, height as int);
    }
    normalize_to(image, width as u32, height as u32)
}

/// An area of 8 columns by 8 rows, any number of times over, packs into
/// bytes without a remainder.
pub proof fn lemma_target_area(width: int, height: int)
    requires
        0 <= width,
        0 <= height,
        width % 8 == 0,
        height % 8 == 0,
    ensures
        (width * height) % 8 == 0,
        8 * packed_len(width * height) == width * height,
{
    let columns = width / 8;
    assert(width * height == 8 * (columns * height)) by (nonlinear_arith)
        requires
            width == 8 * columns,
    ;
}

/// Centring: where the image exceeds the target in neither axis, the pixel
/// at `(x, y)` of the normalized bitmap is on exactly if it lies in the
/// block that starts `margin` pixels from the origin in each axis and has
/// the dimensions of the image, and the sample of the image that comes to
/// lie there is above the threshold. Every pixel around the block is off.
pub proof fn lemma_padding_is_centred(image: GrayView, width: int, height: int, x: int, y: int)
    requires
        image.wf(),
        image.width <= width,
        image.height <= height,
        0 <= x < width,
        0 <= y < height,
    ensures
        ({
            let left = margin(image.width, width);
            let top = margin(image.height, height);
            let inside = left <= x < left + image.width && top <= y < top + image.height;
            &&& 0 <= left && left + image.width <= width
            &&& 0 <= top && top + image.height <= height
            &&& normalized(image, width, height).pixel(x, y) == (inside && is_on(
                image.luma(x - left, y - top),
            ))
        }),
{
    lemma_index_in_grid(x, y, width, height);
    if image.width == width && image.height == height {
    } else {
        let index = x + y * width;
        assert(padded(image, width, height).pixels[index] == (if margin(image.width, width) <= x
            < margin(image.width, width) + image.width && margin(image.height, height) <= y
            < margin(image.height, height) + image.height {
            image.luma(x - margin(image.width, width), y - margin(image.height, height))
        } else {
            BACKGROUND
        }));
    }
}

/// An image that is white throughout and exceeds the target in neither
/// axis normalizes to one block of pixels that are on, centred in the
/// target and bordered by pixels that are off.
pub proof fn lemma_white_image_gives_centred_block(
    image: GrayView,
    width: int,
    height: int,
    x: int,
    y: int,
)
    requires
        image.wf(),
        image.width <= width,
        image.height <= height,
        forall|index: int| 0 <= index < image.pixels.len() ==> is_on(#[trigger] image.pixels[index]),
        0 <= x < width,
        0 <= y < height,
    ensures
        normalized(image, width, height).pixel(x, y) == (margin(image.width, width) <= x < margin(
            image.width,
            width,
        ) + image.width && margin(image.height, height) <= y < margin(image.height, height)
            + image.height),
{
    lemma_padding_is_centred(image, width, height, x, y);
    let left = margin(image.width, width);
    let top = margin(image.height, height);
    if left <= x < left + image.width && top <= y < top + image.height {
        lemma_index_in_grid(x - left, y - top, image.width, image.height);
    }
}

} // verus!
