//! Packed pixel buffers: one bit per pixel, eight pixels per byte, the most
//! significant bit first.

use vstd::prelude::*;

verus! {

/// Number of bytes that hold `pixels` packed pixels.
pub open spec fn packed_len(pixels: int) -> int {
    (pixels + 7) / 8
}

/// Whether the bit of weight `2^pos` is set in `byte`.
pub open spec fn bit_of(byte: u8, pos: int) -> bool {
    (byte >> (pos as u8)) & 1u8 == 1u8
}

/// The pixel at `index` of a packed buffer: bit `7 - index % 8` of byte
/// `index / 8`.
pub open spec fn pixel_at(data: Seq<u8>, index: int) -> bool {
    bit_of(data[index / 8], 7 - index % 8)
}

/// A buffer in which no pixel is on.
pub open spec fn all_off(data: Seq<u8>) -> bool {
    forall|j: int| 0 <= j < 8 * data.len() ==> !#[trigger] pixel_at(data, j)
}

proof fn lemma_bit_update(b: u8, pos: u8, q: u8)
    by (bit_vector)
    requires
        pos < 8,
        q < 8,
    ensures
        ((b | (1u8 << pos)) >> q) & 1u8 == (if q == pos { 1u8 } else { (b >> q) & 1u8 }),
        ((b & !(1u8 << pos)) >> q) & 1u8 == (if q == pos { 0u8 } else { (b >> q) & 1u8 }),
{
}

proof fn lemma_zero_byte(q: u8)
    by (bit_vector)
    requires
        q < 8,
    ensures
        (0u8 >> q) & 1u8 == 0u8,
{
}

/// Most significant bit first: pixel `k` of a byte, counted from 0, is its
/// bit of weight `128 >> k`.
pub proof fn lemma_pixel_is_msb_first(data: Seq<u8>, index: int)
    requires
        0 <= index < 8 * data.len(),
    ensures
        pixel_at(data, index) == (data[index / 8] & (0x80u8 >> ((index % 8) as u8)) != 0),
{
    let byte = data[index / 8];
    let k = (index % 8) as u8;
    assert(((byte >> ((7 - k) as u8)) & 1u8 == 1u8) == (byte & (0x80u8 >> k) != 0)) by (bit_vector)
        requires
            k < 8,
    ;
}

/// A byte is zero exactly when none of its eight bits is set.
pub proof fn lemma_byte_zero(b: u8)
    ensures
        b == 0 <==> (forall|q: int| 0 <= q < 8 ==> !#[trigger] bit_of(b, q)),
{
    assert(b == 0 <==> ((b >> 0u8) & 1u8 == 0u8 && (b >> 1u8) & 1u8 == 0u8 && (b >> 2u8) & 1u8 == 0u8
        && (b >> 3u8) & 1u8 == 0u8 && (b >> 4u8) & 1u8 == 0u8 && (b >> 5u8) & 1u8 == 0u8 && (b
        >> 6u8) & 1u8 == 0u8 && (b >> 7u8) & 1u8 == 0u8)) by (bit_vector);
    assert(forall|q: u8| q < 8 ==> ((b >> q) & 1u8 == 0u8 || (b >> q) & 1u8 == 1u8)) by (bit_vector);
    if b == 0 {
        assert forall|q: int| 0 <= q < 8 implies !#[trigger] bit_of(b, q) by {
            lemma_zero_byte(q as u8);
        }
    }
    if forall|q: int| 0 <= q < 8 ==> !#[trigger] bit_of(b, q) {
        assert(!bit_of(b, 0) && !bit_of(b, 1) && !bit_of(b, 2) && !bit_of(b, 3));
        assert(!bit_of(b, 4) && !bit_of(b, 5) && !bit_of(b, 6) && !bit_of(b, 7));
    }
}

/// Reads the pixel at `index`.
pub fn get_pixel(data: &Vec<u8>, index: u64) -> (on: bool)
    requires
        index < 8 * data@.len(),
    ensures
        on == pixel_at(data@, index as int),
{
    assert(index / 8 < data.len());
    let byte: u8 = data[(index / 8) as usize];
    let pos: u8 = 7 - (index % 8) as u8;
    (byte >> pos) & 1u8 == 1u8
}

/// Writes the pixel at `index` and leaves every other pixel as it was.
pub fn set_pixel(data: &mut Vec<u8>, index: u64, on: bool)
    requires
        index < 8 * old(data)@.len(),
    ensures
        final(data)@.len() == old(data)@.len(),
        forall|j: int|
            0 <= j < 8 * old(data)@.len() ==> #[trigger] pixel_at(final(data)@, j) == (if j
                == index {
                on
            } else {
                pixel_at(old(data)@, j)
            }),
    no_unwind
{
    assert(index / 8 < data.len());
    let k: usize = (index / 8) as usize;
    let pos: u8 = 7 - (index % 8) as u8;
    let byte: u8 = data[k];
    let updated: u8 = if on {
        byte | (1u8 << pos)
    } else {
        byte & !(1u8 << pos)
    };
    data[k] = updated;
    proof {
        assert forall|j: int| 0 <= j < 8 * old(data)@.len() implies #[trigger] pixel_at(data@, j)
            == (if j == index {
            on
        } else {
            pixel_at(old(data)@, j)
        }) by {
            if j / 8 == k as int {
                lemma_bit_update(byte, pos, (7 - j % 8) as u8);
            }
        }
    }
}

} // verus!
