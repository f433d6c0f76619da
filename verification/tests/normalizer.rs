use oled_display::bitmap::Bitmap;
use oled_display::error::DisplayError;
use oled_display::luma::GrayImage;
use oled_display::normalize::{
    binarize, convert_dynamic_image_to_binary_raw, fits_memory, normalize_to, pad, resize,
    sample_is_on, BACKGROUND, THRESHOLD,
};

fn uniform(width: u32, height: u32, luma: u8) -> GrayImage {
    GrayImage::new(width, height, vec![luma; (width * height) as usize]).unwrap()
}

fn on_pixels(bitmap: &Bitmap) -> usize {
    let mut count = 0;
    for y in 0..bitmap.height() {
        for x in 0..bitmap.width() {
            if bitmap.pixel(x, y) {
                count += 1;
            }
        }
    }
    count
}

#[test]
fn threshold_is_exclusive() {
    assert_eq!(THRESHOLD, 128);
    assert!(!sample_is_on(128));
    assert!(sample_is_on(129));
    assert!(!sample_is_on(0));
    assert!(sample_is_on(255));
    assert!(!sample_is_on(127));
}

#[test]
fn threshold_in_a_packed_row() {
    let image = GrayImage::new(8, 1, vec![0, 127, 128, 129, 255, 128, 130, 1]).unwrap();
    let bitmap = binarize(&image);
    assert_eq!(bitmap.as_bytes(), &vec![0b0001_1010u8]);
}

#[test]
fn packing_is_most_significant_bit_first() {
    let mut samples = vec![0u8; 16];
    samples[0] = 255;
    let first = binarize(&GrayImage::new(16, 1, samples).unwrap());
    assert_eq!(first.as_bytes(), &vec![0x80u8, 0x00]);

    let mut samples = vec![0u8; 16];
    samples[7] = 255;
    let eighth = binarize(&GrayImage::new(16, 1, samples).unwrap());
    assert_eq!(eighth.as_bytes(), &vec![0x01u8, 0x00]);

    let mut samples = vec![0u8; 16];
    samples[8] = 255;
    let ninth = binarize(&GrayImage::new(16, 1, samples).unwrap());
    assert_eq!(ninth.as_bytes(), &vec![0x00u8, 0x80]);
}

#[test]
fn packing_follows_rows() {
    // 4 columns: pixel (1, 1) has index 5, pixel (3, 2) has index 11.
    let mut samples = vec![0u8; 12];
    samples[5] = 200;
    samples[11] = 200;
    let bitmap = binarize(&GrayImage::new(4, 3, samples).unwrap());
    assert_eq!(bitmap.width(), 4);
    assert_eq!(bitmap.height(), 3);
    assert_eq!(bitmap.as_bytes(), &vec![0b0000_0100u8, 0b0001_0000]);
    assert!(bitmap.pixel(1, 1));
    assert!(bitmap.pixel(3, 2));
    assert!(!bitmap.pixel(0, 0));
    assert_eq!(on_pixels(&bitmap), 2);
}

#[test]
fn buffer_length_is_the_rounded_up_eighth() {
    for (width, height) in [(1u32, 1u32), (3, 5), (7, 9), (8, 8), (10, 10), (17, 3), (64, 64)] {
        let bitmap = convert_dynamic_image_to_binary_raw(&uniform(width, height, 77)).unwrap();
        let target = (bitmap.width() as usize) * (bitmap.height() as usize);
        assert_eq!(bitmap.as_bytes().len(), (target + 7) / 8);
        assert_eq!(bitmap.as_bytes().len() * 8, target);
    }
    let bits = binarize(&uniform(5, 3, 255));
    assert_eq!(bits.as_bytes().len(), 2);
    assert_eq!(bits.as_bytes(), &vec![0xFFu8, 0xFE]);
}

#[test]
fn target_dimensions_round_up_and_never_stay() {
    let cases = [(1u32, 8u32), (7, 8), (8, 16), (9, 16), (10, 16), (15, 16), (16, 24), (100, 104), (200, 208)];
    for (dim, target) in cases {
        let bitmap = convert_dynamic_image_to_binary_raw(&uniform(dim, 1, 0)).unwrap();
        assert_eq!(bitmap.width(), target);
        assert_eq!(bitmap.height(), 8);
        let bitmap = convert_dynamic_image_to_binary_raw(&uniform(1, dim, 0)).unwrap();
        assert_eq!(bitmap.width(), 8);
        assert_eq!(bitmap.height(), target);
    }
}

#[test]
fn white_ten_by_ten_is_centred_in_sixteen_by_sixteen() {
    let bitmap = convert_dynamic_image_to_binary_raw(&uniform(10, 10, 255)).unwrap();
    assert_eq!(bitmap.width(), 16);
    assert_eq!(bitmap.height(), 16);
    assert_eq!(bitmap.as_bytes().len(), 32);
    for y in 0..16u32 {
        for x in 0..16u32 {
            let inside = (3..13).contains(&x) && (3..13).contains(&y);
            assert_eq!(bitmap.pixel(x, y), inside, "pixel ({}, {})", x, y);
        }
    }
    let mut expected = vec![0u8; 32];
    for row in 3..13 {
        expected[2 * row] = 0x1F;
        expected[2 * row + 1] = 0xF8;
    }
    assert_eq!(bitmap.as_bytes(), &expected);
}

#[test]
fn black_two_hundred_by_one_hundred_stays_black() {
    let bitmap = convert_dynamic_image_to_binary_raw(&uniform(200, 100, 0)).unwrap();
    assert_eq!(bitmap.width(), 208);
    assert_eq!(bitmap.height(), 104);
    assert_eq!(bitmap.as_bytes().len(), 208 * 104 / 8);
    assert!(bitmap.as_bytes().iter().all(|byte| *byte == 0));
}

#[test]
fn odd_margin_leaves_the_extra_pixel_behind() {
    // 3 columns in 8: margin 2 in front, 3 behind; 5 rows in 8: 1 above, 2 below.
    let bitmap = convert_dynamic_image_to_binary_raw(&uniform(3, 5, 255)).unwrap();
    assert_eq!((bitmap.width(), bitmap.height()), (8, 8));
    let expected = vec![0x00u8, 0x38, 0x38, 0x38, 0x38, 0x38, 0x00, 0x00];
    assert_eq!(bitmap.as_bytes(), &expected);
}

#[test]
fn padding_keeps_the_samples_in_place() {
    let image = GrayImage::new(2, 2, vec![10, 200, 129, 128]).unwrap();
    let canvas = pad(&image, 4, 5);
    assert_eq!((canvas.width(), canvas.height()), (4, 5));
    let mut expected = vec![BACKGROUND; 20];
    expected[4 + 1] = 10;
    expected[4 + 2] = 200;
    expected[8 + 1] = 129;
    expected[8 + 2] = 128;
    assert_eq!(canvas.as_raw(), &expected);
    assert_eq!(canvas.luma(2, 1), 200);
    assert_eq!(canvas.luma(0, 0), 0);

    let bitmap = normalize_to(&image, 4, 5).unwrap();
    assert_eq!(bitmap.as_bytes(), &vec![0b0000_0010u8, 0b0100_0000, 0b0000_0000]);
}

#[test]
fn padding_onto_a_canvas_of_the_same_width() {
    let image = GrayImage::new(3, 1, vec![255, 0, 255]).unwrap();
    let canvas = pad(&image, 3, 3);
    assert_eq!(canvas.as_raw(), &vec![0u8, 0, 0, 255, 0, 255, 0, 0, 0]);
}

#[test]
fn same_dimensions_are_packed_as_they_are() {
    let image = GrayImage::new(8, 2, vec![255, 0, 255, 0, 255, 0, 255, 0, 0, 0, 0, 0, 255, 255, 255, 255]).unwrap();
    let bitmap = normalize_to(&image, 8, 2).unwrap();
    assert_eq!(bitmap.as_bytes(), &vec![0xAAu8, 0x0F]);
}

#[test]
fn larger_source_is_sampled_not_padded() {
    // Left half white, right half black, 16 by 16, sampled down to 8 by 8.
    let mut samples = vec![0u8; 256];
    for y in 0..16 {
        for x in 0..8 {
            samples[y * 16 + x] = 255;
        }
    }
    let image = GrayImage::new(16, 16, samples).unwrap();
    let sampled = resize(&image, 8, 8);
    assert_eq!((sampled.width(), sampled.height()), (8, 8));
    assert_eq!(sampled.as_raw().len(), 64);
    let bitmap = normalize_to(&image, 8, 8).unwrap();
    assert_eq!((bitmap.width(), bitmap.height()), (8, 8));
    assert_eq!(bitmap.as_bytes(), &vec![0xF0u8; 8]);
}

#[test]
fn source_larger_in_one_axis_is_sampled() {
    // Wider than the target, lower than the target: sampled in both axes.
    let white = normalize_to(&uniform(200, 4, 255), 16, 8).unwrap();
    assert_eq!((white.width(), white.height()), (16, 8));
    assert_eq!(white.as_bytes(), &vec![0xFFu8; 16]);
    let black = normalize_to(&uniform(200, 100, 0), 104, 56).unwrap();
    assert_eq!(black.as_bytes().len(), 104 * 56 / 8);
    assert!(black.as_bytes().iter().all(|byte| *byte == 0));
}

#[test]
fn sampling_takes_the_nearest_row() {
    // Four rows of lumas 10, 20, 200, 250 sampled to two rows.
    let image = GrayImage::new(1, 4, vec![10, 20, 200, 250]).unwrap();
    let sampled = resize(&image, 1, 2);
    assert_eq!(sampled.as_raw().len(), 2);
    assert!(sampled.luma(0, 0) <= 20);
    assert!(sampled.luma(0, 1) >= 200);
}

#[test]
fn empty_image_is_rejected() {
    let no_columns = GrayImage::new(0, 5, vec![]).unwrap();
    let no_rows = GrayImage::new(5, 0, vec![]).unwrap();
    let nothing = GrayImage::new(0, 0, vec![]).unwrap();
    for image in [&no_columns, &no_rows, &nothing] {
        assert_eq!(
            convert_dynamic_image_to_binary_raw(image).unwrap_err(),
            DisplayError::InvalidDimensions
        );
        assert_eq!(normalize_to(image, 8, 8).unwrap_err(), DisplayError::InvalidDimensions);
    }
}

#[test]
fn empty_target_is_rejected() {
    let image = uniform(4, 4, 255);
    assert_eq!(normalize_to(&image, 0, 8).unwrap_err(), DisplayError::InvalidDimensions);
    assert_eq!(normalize_to(&image, 8, 0).unwrap_err(), DisplayError::InvalidDimensions);
}

#[test]
fn gray_image_wants_one_sample_per_pixel() {
    assert!(GrayImage::new(2, 3, vec![0; 6]).is_some());
    assert!(GrayImage::new(2, 3, vec![0; 5]).is_none());
    assert!(GrayImage::new(2, 3, vec![0; 7]).is_none());
    assert!(GrayImage::new(0, 3, vec![0; 1]).is_none());
    let image = GrayImage::new(2, 3, vec![1, 2, 3, 4, 5, 6]).unwrap();
    assert_eq!(image.width(), 2);
    assert_eq!(image.height(), 3);
    assert_eq!(image.luma(0, 0), 1);
    assert_eq!(image.luma(1, 0), 2);
    assert_eq!(image.luma(0, 2), 5);
    assert_eq!(image.luma(1, 2), 6);
}

#[test]
fn bitmap_wants_the_packed_length() {
    assert!(Bitmap::from_packed(8, 8, vec![0; 8]).is_some());
    assert!(Bitmap::from_packed(8, 8, vec![0; 7]).is_none());
    assert!(Bitmap::from_packed(8, 8, vec![0; 9]).is_none());
    assert!(Bitmap::from_packed(3, 3, vec![0; 2]).is_some());
    assert!(Bitmap::from_packed(3, 3, vec![0; 1]).is_none());
    assert!(Bitmap::from_packed(0, 7, vec![]).is_some());
    let bitmap = Bitmap::from_packed(3, 3, vec![0b1000_0000, 0b1000_0000]).unwrap();
    assert!(bitmap.pixel(0, 0));
    assert!(bitmap.pixel(2, 2));
    assert!(!bitmap.pixel(1, 1));
    assert_eq!(bitmap.as_bytes(), &vec![0x80u8, 0x80]);
}

#[test]
fn target_beyond_the_address_space_is_rejected() {
    let image = uniform(4, 4, 255);
    assert_eq!(
        normalize_to(&image, u32::MAX, u32::MAX).unwrap_err(),
        DisplayError::InvalidDimensions
    );
    assert!(!fits_memory(4, 4, u32::MAX, u32::MAX));
    assert!(fits_memory(4, 4, 8, 8));
    assert!(fits_memory(200, 100, 16, 8));
    // A canvas that fits, reached by sampling through an image that does not.
    assert!(fits_memory(1, 1, 1, u32::MAX));
    assert!(!fits_memory(u32::MAX, 1, 1, u32::MAX));
}
