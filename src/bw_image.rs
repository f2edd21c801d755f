//! Black/white images sent in a single `DisplayBwImage` command: one bit per
//! LED, LED `x + 9 * y` at bit `i % 8` of byte `i / 8`.

use vstd::prelude::*;

use crate::protocol::{encode_command, frame_bytes, Command, HEIGHT, WIDTH};

verus! {

/// Bytes that hold one bit for each of the display's 306 LEDs.
pub const BW_LEN: usize = 39;

/// Bits in the packed buffer, including the unused tail of its last byte.
pub const BW_BITS: usize = 312;

/// LEDs of the display.
pub const LED_COUNT: usize = 306;

/// Whether bit `k` (0 = least significant) of `b` is set.
pub open spec fn bit_set(b: u8, k: int) -> bool {
    (b >> (k as u8)) & 1u8 == 1u8
}

/// Whether LED `i` is on in a packed buffer.
pub open spec fn packed_bit(vals: Seq<u8>, i: int) -> bool {
    bit_set(vals[i / 8], i % 8)
}

/// LED `i` of a 9-by-34 matrix is on where its value is 0xFF.
pub open spec fn matrix_led_on(matrix: [[u8; 34]; 9], i: int) -> bool {
    0 <= i < LED_COUNT && matrix@[i % 9]@[i / 9] == 0xFFu8
}

/// LED `i` is on where a font item's pixel under it is 1. Item `d` covers the
/// five columns 2 to 6 of rows `7 * d` to `7 * d + 5`; its pixel `(x, y)` is
/// at `x + 5 * y`.
pub open spec fn font_led_on(items: Seq<Seq<u8>>, i: int) -> bool {
    let col = i % 9;
    let row = i / 9;
    &&& 0 <= i < LED_COUNT
    &&& 2 <= col < 7
    &&& row % 7 < 6
    &&& row / 7 < items.len()
    &&& items[row / 7][(col - 2) + 5 * (row % 7)] == 1u8
}

proof fn lemma_or_bit(b: u8, k: u8, m: u8)
    requires
        k < 8,
        m < 8,
    ensures
        ((b | (1u8 << k)) >> m) & 1u8 == 1u8 <==> ((b >> m) & 1u8 == 1u8 || m == k),
{
    assert(((b | (1u8 << k)) >> m) & 1u8 == 1u8 <==> ((b >> m) & 1u8 == 1u8 || m == k))
        by (bit_vector)
        requires
            k < 8,
            m < 8,
    ;
}

proof fn lemma_zero_bit(m: u8)
    ensures
        !bit_set(0u8, m as int),
{
    assert((0u8 >> m) & 1u8 != 1u8) by (bit_vector);
}

/// A buffer with every LED off.
fn all_off() -> (r: Vec<u8>)
    ensures
        r@.len() == BW_LEN,
        forall|i: int| 0 <= i < BW_BITS ==> !#[trigger] packed_bit(r@, i),
{
    let r: Vec<u8> = vec![0u8; BW_LEN];
    assert forall|i: int| 0 <= i < BW_BITS implies !#[trigger] packed_bit(r@, i) by {
        lemma_zero_bit((i % 8) as u8);
    }
    r
}

/// Switches LED `i` on and leaves every other LED as it was.
fn set_led(vals: &mut Vec<u8>, i: usize)
    requires
        old(vals)@.len() == BW_LEN,
        i < BW_BITS,
    ensures
        final(vals)@.len() == BW_LEN,
        forall|j: int|
            0 <= j < BW_BITS ==> #[trigger] packed_bit(final(vals)@, j) == (packed_bit(old(vals)@, j)
                || j == i),
{
    let byte = i / 8;
    let shift = (i % 8) as u8;
    let updated = vals[byte] | (1u8 << shift);
    vals.set(byte, updated);
    assert forall|j: int| 0 <= j < BW_BITS implies #[trigger] packed_bit(vals@, j) == (packed_bit(
        old(vals)@,
        j,
    ) || j == i) by {
        if j / 8 == byte as int {
            lemma_or_bit(old(vals)@[byte as int], shift, (j % 8) as u8);
        }
    }
}

/// The `DisplayBwImage` arguments for a matrix: an LED is on where its value is 0xFF.
fn pack_matrix(matrix: &[[u8; 34]; 9]) -> (r: Vec<u8>)
    ensures
        r@.len() == BW_LEN,
        forall|i: int| 0 <= i < BW_BITS ==> #[trigger] packed_bit(r@, i) == matrix_led_on(*matrix, i),
{
    let mut vals = all_off();
    let mut i: usize = 0;
    while i < LED_COUNT
        invariant
            i <= LED_COUNT,
            vals@.len() == BW_LEN,
            forall|j: int|
                0 <= j < BW_BITS ==> #[trigger] packed_bit(vals@, j) == (j < i && matrix_led_on(
                    *matrix,
                    j,
                )),
        decreases LED_COUNT - i,
    {
        let x = i % WIDTH;
        let y = i / WIDTH;
        if matrix[x][y] == 0xFF {
            set_led(&mut vals, i);
        }
        i = i + 1;
    }
    vals
}

/// The `DisplayBwImage` arguments for up to five 5-by-6 font items.
fn pack_font(font_items: &[Vec<u8>]) -> (r: Vec<u8>)
    requires
        font_items@.len() <= 5,
        forall|d: int| 0 <= d < font_items@.len() ==> (#[trigger] font_items@[d])@.len() >= 30,
    ensures
        r@.len() == BW_LEN,
        forall|i: int|
            0 <= i < BW_BITS ==> #[trigger] packed_bit(r@, i) == font_led_on(
                font_items@.map_values(|v: Vec<u8>| v@),
                i,
            ),
{
    let ghost items = font_items@.map_values(|v: Vec<u8>| v@);
    let mut vals = all_off();
    let mut i: usize = 0;
    while i < LED_COUNT
        invariant
            i <= LED_COUNT,
            vals@.len() == BW_LEN,
            items == font_items@.map_values(|v: Vec<u8>| v@),
            font_items@.len() <= 5,
            forall|d: int| 0 <= d < font_items@.len() ==> (#[trigger] font_items@[d])@.len() >= 30,
            forall|j: int|
                0 <= j < BW_BITS ==> #[trigger] packed_bit(vals@, j) == (j < i && font_led_on(
                    items,
                    j,
                )),
        decreases LED_COUNT - i,
    {
        let col = i % WIDTH;
        let row = i / WIDTH;
        let digit = row / 7;
        let pixel_y = row % 7;
        if 2 <= col && col < 7 && pixel_y < 6 && digit < font_items.len() {
            let pixel = font_items[digit][(col - 2) + 5 * pixel_y];
            if pixel == 1 {
                set_led(&mut vals, i);
            }
        }
        i = i + 1;
    }
    vals
}

/// Frame that shows a black/white matrix in one command: an LED is on where
/// the matrix holds 0xFF.
pub fn render_matrix(matrix: &[[u8; 34]; 9]) -> (r: Vec<u8>)
    ensures
        r@.len() == 3 + BW_LEN,
        r@.subrange(0, 3) == frame_bytes(Command::DisplayBwImage, Seq::empty()),
        forall|i: int| 0 <= i < BW_BITS ==> #[trigger] packed_bit(r@.subrange(3, r@.len() as int), i)
            == matrix_led_on(*matrix, i),
{
    let vals = pack_matrix(matrix);
    let r = encode_command(Command::DisplayBwImage, vals.as_slice());
    assert(r@.subrange(3, r@.len() as int) =~= vals@);
    assert(r@.subrange(0, 3) =~= frame_bytes(Command::DisplayBwImage, Seq::empty()));
    r
}

/// Frame that shows up to five 5-by-6 font items stacked down the display,
/// seven rows apart, starting at column 2; a pixel of value 1 is on.
pub fn show_font(font_items: &[Vec<u8>]) -> (r: Vec<u8>)
    requires
        font_items@.len() <= 5,
        forall|d: int| 0 <= d < font_items@.len() ==> (#[trigger] font_items@[d])@.len() >= 30,
    ensures
        r@.len() == 3 + BW_LEN,
        r@.subrange(0, 3) == frame_bytes(Command::DisplayBwImage, Seq::empty()),
        forall|i: int| 0 <= i < BW_BITS ==> #[trigger] packed_bit(r@.subrange(3, r@.len() as int), i)
            == font_led_on(font_items@.map_values(|v: Vec<u8>| v@), i),
{
    let vals = pack_font(font_items);
    let r = encode_command(Command::DisplayBwImage, vals.as_slice());
    assert(r@.subrange(3, r@.len() as int) =~= vals@);
    assert(r@.subrange(0, 3) =~= frame_bytes(Command::DisplayBwImage, Seq::empty()));
    r
}

} // verus!
