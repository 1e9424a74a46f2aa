//! Integer helpers shared by the drivers: a linear rescaling function and the
//! packing of 8-bit color channels into a 24-bit RGB word.

use vstd::prelude::*;

verus! {

/// Division rounding toward zero, as the executable `/` operator computes it
/// on signed integers. (In specifications, `/` on `int` is Euclidean, which
/// differs on negative operands.)
pub open spec fn div_trunc(a: int, b: int) -> int
    recommends
        b != 0,
{
    if a >= 0 {
        a / b
    } else {
        -((-a) / b)
    }
}

/// Linearly rescales `input` from the range `[input_start, input_end]` onto
/// `[output_start, output_end]`. The slope is computed first, with truncating
/// integer division, so sub-integer slopes collapse toward zero.
pub fn map32(input: i32, input_start: i32, input_end: i32, output_start: i32, output_end: i32) -> (r: i32)
    requires
        input_end != input_start,
        !(output_end - output_start == i32::MIN && input_end - input_start == -1),
        i32::MIN <= output_end - output_start <= i32::MAX,
        i32::MIN <= input_end - input_start <= i32::MAX,
        i32::MIN <= div_trunc(output_end - output_start, input_end - input_start) <= i32::MAX,
        i32::MIN <= input - input_start <= i32::MAX,
        i32::MIN <= div_trunc(output_end - output_start, input_end - input_start) * (input
            - input_start) <= i32::MAX,
        i32::MIN <= output_start + div_trunc(output_end - output_start, input_end - input_start) * (
        input - input_start) <= i32::MAX,
    ensures
        r == output_start + div_trunc(output_end - output_start, input_end - input_start) * (input
            - input_start),
{
    let slope = (output_end - output_start) / (input_end - input_start);
    output_start + slope * (input - input_start)
}

/// The red channel of a packed 24-bit RGB word (bits 16..24).
pub open spec fn red_channel(rgb: u32) -> u8 {
    ((rgb >> 16) & 0xFF) as u8
}

/// The green channel of a packed 24-bit RGB word (bits 8..16).
pub open spec fn green_channel(rgb: u32) -> u8 {
    ((rgb >> 8) & 0xFF) as u8
}

/// The blue channel of a packed 24-bit RGB word (bits 0..8).
pub open spec fn blue_channel(rgb: u32) -> u8 {
    (rgb & 0xFF) as u8
}

/// A 24-bit RGB word assembled from its three channels: red in bits 16..24,
/// green in bits 8..16, blue in bits 0..8.
pub open spec fn packed_rgb(red: u8, green: u8, blue: u8) -> u32 {
    ((red as u32) << 16) | ((green as u32) << 8) | (blue as u32)
}

/// Splits a packed 24-bit RGB word into its `(red, green, blue)` channels.
pub fn u32_to_rgb(rgb: u32) -> (channels: (u8, u8, u8))
    ensures
        channels.0 == red_channel(rgb),
        channels.1 == green_channel(rgb),
        channels.2 == blue_channel(rgb),
{
    let red = ((rgb & 0xFF0000) >> 16) as u8;
    let green = ((rgb & 0x00FF00) >> 8) as u8;
    let blue = (rgb & 0xFF) as u8;
    proof {
        assert(((rgb & 0xFF0000) >> 16) as u8 == ((rgb >> 16) & 0xFF) as u8) by (bit_vector);
        assert(((rgb & 0x00FF00) >> 8) as u8 == ((rgb >> 8) & 0xFF) as u8) by (bit_vector);
    }
    (red, green, blue)
}

/// Packs three 8-bit channels into a 24-bit RGB word.
pub fn channels_to_rgb(red: u8, green: u8, blue: u8) -> (rgb: u32)
    ensures
        rgb == packed_rgb(red, green, blue),
        rgb < 0x1000000,
{
    proof {
        assert(((red as u32) << 16) | ((green as u32) << 8) | (blue as u32)
            < 0x1000000) by (bit_vector);
    }
    ((red as u32) << 16) | ((green as u32) << 8) | (blue as u32)
}

/// Splitting a representable (24-bit) RGB word into channels and packing the
/// channels again gives the word back: the channel layout is lossless.
pub proof fn lemma_channels_round_trip(rgb: u32)
    requires
        rgb < 0x1000000,
    ensures
        packed_rgb(red_channel(rgb), green_channel(rgb), blue_channel(rgb)) == rgb,
{
    assert(rgb < 0x1000000 ==> ((((rgb >> 16) & 0xFF) as u8 as u32) << 16) | ((((rgb >> 8)
        & 0xFF) as u8 as u32) << 8) | ((rgb & 0xFF) as u8 as u32) == rgb) by (bit_vector);
}

/// Packing three channels and splitting the packed word again gives the
/// channels back.
pub proof fn lemma_rgb_round_trip(red: u8, green: u8, blue: u8)
    ensures
        red_channel(packed_rgb(red, green, blue)) == red,
        green_channel(packed_rgb(red, green, blue)) == green,
        blue_channel(packed_rgb(red, green, blue)) == blue,
{
    assert(((((red as u32) << 16) | ((green as u32) << 8) | (blue as u32)) >> 16) & 0xFF
        == red) by (bit_vector);
    assert(((((red as u32) << 16) | ((green as u32) << 8) | (blue as u32)) >> 8) & 0xFF
        == green) by (bit_vector);
    assert(((((red as u32) << 16) | ((green as u32) << 8) | (blue as u32)) & 0xFF
        == blue)) by (bit_vector);
}

} // verus!
