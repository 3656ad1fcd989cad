//! The picture in the video memory, as pixels.
//!
//! The video memory holds one bit per pixel, eight pixels to the byte, lowest
//! bit first, in rows of 256 pixels. This module turns it into one colour
//! byte per pixel; showing them is left to the host.
use crate::bits::{bit_set, test_bit};
use crate::intel8080_state::{StateIntel8080, VIDEO_RAM_END, VIDEO_RAM_START};
use vstd::prelude::*;

verus! {

/// Pixels in a row of the picture.
pub const SCREEN_WIDTH: usize = 256;

/// Rows of the picture.
pub const SCREEN_HEIGHT: usize = 224;

/// Pixels of the picture: eight for each byte of the video memory.
pub const PIXEL_COUNT: usize = 57_344;

/// Colour of an unlit pixel.
pub const BLACK: u8 = 0;

/// Colour of a lit pixel outside the coloured bands.
pub const WHITE: u8 = 255;

/// Colour of a lit pixel in the lower band, where the player and the
/// shields are.
pub const GREEN: u8 = 0b0001_1100;

/// Colour of a lit pixel in the upper band, where the saucer flies.
pub const RED: u8 = 0b1110_0000;

/// The colour of pixel `x`, three bits of red, three of green and two of
/// blue: black when unlit, else green in columns 16 to 79 of its row, red in
/// columns 201 to 221, white elsewhere.
pub open spec fn pixel_color(x: int, lit: bool) -> u8 {
    let column = x % 256;
    if !lit {
        BLACK
    } else if 15 < column < 80 {
        GREEN
    } else if 200 < column < 222 {
        RED
    } else {
        WHITE
    }
}

/// Whether pixel `x` is lit in the video memory.
pub open spec fn pixel_lit(memory: Seq<u8>, x: int) -> bool {
    bit_set(memory[VIDEO_RAM_START + x / 8], (x % 8) as nat)
}

/// The picture that the video memory holds.
pub open spec fn picture(memory: Seq<u8>) -> Seq<u8> {
    Seq::new(PIXEL_COUNT as nat, |x: int| pixel_color(x, pixel_lit(memory, x)))
}

/// The colour of pixel `x`; see `pixel_color`.
pub fn color_of(x: usize, lit: bool) -> (color: u8)
    ensures
        color == pixel_color(x as int, lit),
{
    let column = x % 256;
    if !lit {
        BLACK
    } else if column > 15 && column < 80 {
        GREEN
    } else if column > 200 && column < 222 {
        RED
    } else {
        WHITE
    }
}

/// Writes the eight bits of `vram_byte` to the first eight entries of
/// `bit_vector`, lowest bit first. Further entries are kept.
pub fn get_bits(vram_byte: u8, bit_vector: &mut Vec<bool>)
    requires
        old(bit_vector)@.len() >= 8,
    ensures
        final(bit_vector)@.len() == old(bit_vector)@.len(),
        forall|b: int| 0 <= b < 8 ==> final(bit_vector)@[b] == bit_set(vram_byte, b as nat),
        forall|b: int| 8 <= b < old(bit_vector)@.len() ==> final(bit_vector)@[b] == old(bit_vector)@[b],
{
    let mut b: usize = 0;
    while b < 8
        invariant
            b <= 8,
            bit_vector@.len() == old(bit_vector)@.len(),
            bit_vector@.len() >= 8,
            forall|k: int| 0 <= k < b ==> bit_vector@[k] == bit_set(vram_byte, k as nat),
            forall|k: int| 8 <= k < bit_vector@.len() ==> bit_vector@[k] == old(bit_vector)@[k],
        decreases 8 - b,
    {
        bit_vector[b] = test_bit(vram_byte, b);
        b += 1;
    }
}

/// The picture in the video memory of `state`, one colour byte per pixel.
pub fn screen_pixels(state: &StateIntel8080) -> (pixels: Vec<u8>)
    requires
        state.memory@.len() >= VIDEO_RAM_END,
    ensures
        pixels@ == picture(state.memory@),
{
    let mut pixels: Vec<u8> = Vec::new();
    let mut bit_vector: Vec<bool> = vec![false; 8];
    let mut at: usize = VIDEO_RAM_START;
    while at < VIDEO_RAM_END
        invariant
            VIDEO_RAM_START <= at <= VIDEO_RAM_END,
            state.memory@.len() >= VIDEO_RAM_END,
            bit_vector@.len() == 8,
            pixels@.len() == 8 * (at - VIDEO_RAM_START),
            forall|x: int|
                0 <= x < pixels@.len() ==> pixels@[x] == pixel_color(
                    x,
                    pixel_lit(state.memory@, x),
                ),
        decreases VIDEO_RAM_END - at,
    {
        get_bits(state.memory[at], &mut bit_vector);
        let mut b: usize = 0;
        while b < 8
            invariant
                b <= 8,
                VIDEO_RAM_START <= at < VIDEO_RAM_END,
                state.memory@.len() >= VIDEO_RAM_END,
                bit_vector@.len() == 8,
                forall|k: int|
                    0 <= k < 8 ==> bit_vector@[k] == bit_set(state.memory@[at as int], k as nat),
                pixels@.len() == 8 * (at - VIDEO_RAM_START) + b,
                forall|x: int|
                    0 <= x < pixels@.len() ==> pixels@[x] == pixel_color(
                        x,
                        pixel_lit(state.memory@, x),
                    ),
            decreases 8 - b,
        {
            let x: usize = pixels.len();
            pixels.push(color_of(x, bit_vector[b]));
            b += 1;
        }
        at += 1;
    }
    assert(pixels@ =~= picture(state.memory@));
    pixels
}

} // verus!
