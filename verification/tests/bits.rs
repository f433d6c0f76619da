use oled_display::bits::{get_pixel, set_pixel};

#[test]
fn pixel_zero_is_bit_seven_of_byte_zero() {
    let mut data = vec![0u8; 2];
    set_pixel(&mut data, 0, true);
    assert_eq!(data, vec![0b1000_0000, 0]);
    assert!(get_pixel(&data, 0));
    assert!(!get_pixel(&data, 1));
}

#[test]
fn pixel_seven_is_bit_zero_of_byte_zero() {
    let mut data = vec![0u8; 2];
    set_pixel(&mut data, 7, true);
    assert_eq!(data, vec![0b0000_0001, 0]);
    assert!(get_pixel(&data, 7));
}

#[test]
fn pixel_eight_is_bit_seven_of_byte_one() {
    let mut data = vec![0u8; 2];
    set_pixel(&mut data, 8, true);
    assert_eq!(data, vec![0, 0b1000_0000]);
    assert!(get_pixel(&data, 8));
    assert!(!get_pixel(&data, 0));
}

#[test]
fn setting_a_pixel_leaves_the_others() {
    let mut data = vec![0b1010_1010u8, 0xFF];
    set_pixel(&mut data, 1, true);
    assert_eq!(data, vec![0b1110_1010, 0xFF]);
    set_pixel(&mut data, 0, false);
    assert_eq!(data, vec![0b0110_1010, 0xFF]);
    set_pixel(&mut data, 15, false);
    assert_eq!(data, vec![0b0110_1010, 0xFE]);
    set_pixel(&mut data, 15, false);
    assert_eq!(data, vec![0b0110_1010, 0xFE]);
    let read: Vec<bool> = (0..8).map(|index| get_pixel(&data, index)).collect();
    assert_eq!(read, vec![false, true, true, false, true, false, true, false]);
}
