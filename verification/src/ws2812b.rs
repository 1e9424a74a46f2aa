//! Addressable-LED bitstream encoder.
//!
//! The single-wire LED protocol is emulated over the SPI data line: each
//! protocol bit becomes one 8-bit word whose high-pulse width, at the
//! configured clock, falls inside the protocol's tolerance for a logical 0
//! or 1. A color is transmitted as 24 such symbols — green byte first, then
//! red, then blue, each most-significant bit first — and every frame starts
//! with two all-low words that the LEDs read as the inter-frame reset gap.

use vstd::prelude::*;

verus! {

/// SPI clock rate at which the symbol pulse widths meet the LED protocol's
/// timing tolerances.
pub const DRIVER_FREQUENCY: u32 = 8_500_000;

/// Symbols per color: one per bit of the 24-bit value.
pub const INFO_SIZE: usize = 24;

/// Symbol carrying a logical 0: three clocks high, five low.
pub const LOGIC_0: u16 = 0xE0;

/// Symbol carrying a logical 1: six clocks high, two low.
pub const LOGIC_1: u16 = 0xFC;

/// Number of LEDs in the chain this board drives.
pub const NUM_LEDS: usize = 12;

/// Buffer length for a full frame: the reset gap plus one symbol block per
/// LED.
pub const LED_INFO_SIZE: usize = 2 + (INFO_SIZE * NUM_LEDS);

/// The SPI parameters the encoder's output is timed for.
pub struct SpiConfig {
    pub frequency: u32,
}

/// The SPI configuration for driving the LED chain: the clock rate that
/// makes the symbols' pulse widths land in the protocol's tolerance window.
pub fn get_addressable_led_config() -> (config: SpiConfig)
    ensures
        config.frequency == DRIVER_FREQUENCY,
{
    SpiConfig { frequency: DRIVER_FREQUENCY }
}

/// The symbol standing for one protocol bit.
pub open spec fn symbol_for(bit: bool) -> u16 {
    if bit {
        LOGIC_1
    } else {
        LOGIC_0
    }
}

/// Protocol bit `i` of a color, in transmission order: the green byte
/// (bits 15..8 of the packed value) first, then the red byte (23..16),
/// then the blue byte (7..0), each most-significant bit first.
pub open spec fn grb_bit(color: u32, i: int) -> bool
    recommends
        0 <= i < 24,
{
    if i < 8 {
        (color >> ((15 - i) as u32)) & 1 == 1
    } else if i < 16 {
        (color >> ((31 - i) as u32)) & 1 == 1
    } else {
        (color >> ((23 - i) as u32)) & 1 == 1
    }
}

/// The symbol stream for a whole frame: two all-low reset words, then 24
/// symbols per color in array order.
pub open spec fn encoded_stream(colors: Seq<u32>) -> Seq<u16> {
    Seq::new(
        (2 + colors.len() * 24) as nat,
        |i: int|
            if i < 2 {
                0u16
            } else {
                symbol_for(grb_bit(colors[(i - 2) / 24], (i - 2) % 24))
            },
    )
}

/// The 24 pulse symbols for one color, in transmission order.
pub fn rgb_to_logic_buffer(color_value: u32) -> (buffer: Vec<u16>)
    ensures
        buffer@.len() == INFO_SIZE,
        forall|i: int| 0 <= i < INFO_SIZE ==> buffer@[i] == symbol_for(grb_bit(color_value, i)),
{
    let mut buffer: Vec<u16> = Vec::new();

    // Green byte, most significant bit first.
    let mut i: usize = 0;
    while i < 8
        invariant
            i <= 8,
            buffer@.len() == i,
            forall|j: int| 0 <= j < i ==> buffer@[j] == symbol_for(grb_bit(color_value, j)),
        decreases 8 - i,
    {
        let shift: u32 = (15 - i) as u32;
        if (color_value >> shift) & 1 == 1 {
            buffer.push(LOGIC_1);
        } else {
            buffer.push(LOGIC_0);
        }
        i = i + 1;
    }

    // Red byte.
    while i < 16
        invariant
            8 <= i <= 16,
            buffer@.len() == i,
            forall|j: int| 0 <= j < i ==> buffer@[j] == symbol_for(grb_bit(color_value, j)),
        decreases 16 - i,
    {
        let shift: u32 = (31 - i) as u32;
        if (color_value >> shift) & 1 == 1 {
            buffer.push(LOGIC_1);
        } else {
            buffer.push(LOGIC_0);
        }
        i = i + 1;
    }

    // Blue byte.
    while i < 24
        invariant
            16 <= i <= 24,
            buffer@.len() == i,
            forall|j: int| 0 <= j < i ==> buffer@[j] == symbol_for(grb_bit(color_value, j)),
        decreases 24 - i,
    {
        let shift: u32 = (23 - i) as u32;
        if (color_value >> shift) & 1 == 1 {
            buffer.push(LOGIC_1);
        } else {
            buffer.push(LOGIC_0);
        }
        i = i + 1;
    }

    buffer
}

/// A symbol block sits at the positions its LED owns: position
/// `2 + 24 * led + j` of the stream splits back into `led` and `j`.
proof fn lemma_block_index(led: int, j: int)
    requires
        0 <= led,
        0 <= j < 24,
    ensures
        (led * 24 + j) / 24 == led,
        (led * 24 + j) % 24 == j,
{
    assert((led * 24 + j) / 24 == led && (led * 24 + j) % 24 == j) by (nonlinear_arith)
        requires
            0 <= led,
            0 <= j < 24,
    ;
}

/// The full transmit buffer for a frame: two all-low reset words, then the
/// 24-symbol block of each color in array order. The buffer is sized by
/// construction: exactly `2 + 24 * count` symbols, never truncated or
/// padded.
pub fn generate_addressable_led_buffer(color_values: &[u32]) -> (buffer: Vec<u16>)
    ensures
        buffer@ == encoded_stream(color_values@),
        buffer@.len() == 2 + 24 * color_values@.len(),
{
    let mut buffer: Vec<u16> = Vec::new();
    buffer.push(0);
    buffer.push(0);

    let mut led: usize = 0;
    while led < color_values.len()
        invariant
            led <= color_values@.len(),
            buffer@.len() == 2 + led * 24,
            buffer@[0] == 0,
            buffer@[1] == 0,
            forall|k: int|
                2 <= k < buffer@.len() ==> #[trigger] buffer@[k] == symbol_for(
                    grb_bit(color_values@[(k - 2) / 24], (k - 2) % 24),
                ),
        decreases color_values@.len() - led,
    {
        let color_buffer = rgb_to_logic_buffer(color_values[led]);
        let ghost base: int = buffer@.len() as int;
        let mut i: usize = 0;
        while i < INFO_SIZE
            invariant
                i <= INFO_SIZE,
                led < color_values@.len(),
                base == 2 + led * 24,
                buffer@.len() == base + i,
                buffer@[0] == 0,
                buffer@[1] == 0,
                color_buffer@.len() == INFO_SIZE,
                forall|j: int|
                    0 <= j < INFO_SIZE ==> color_buffer@[j] == symbol_for(
                        grb_bit(color_values@[led as int], j),
                    ),
                forall|k: int|
                    2 <= k < base ==> #[trigger] buffer@[k] == symbol_for(
                        grb_bit(color_values@[(k - 2) / 24], (k - 2) % 24),
                    ),
                forall|k: int| base <= k < base + i ==> buffer@[k] == color_buffer@[k - base],
            decreases INFO_SIZE - i,
        {
            buffer.push(color_buffer[i]);
            i = i + 1;
        }
        proof {
            assert forall|k: int| base <= k < base + 24 implies #[trigger] buffer@[k]
                == symbol_for(grb_bit(color_values@[(k - 2) / 24], (k - 2) % 24)) by {
                let j = k - base;
                lemma_block_index(led as int, j);
                assert(buffer@[k] == color_buffer@[j]);
            }
        }
        led = led + 1;
    }
    proof {
        assert(buffer@ =~= encoded_stream(color_values@));
    }
    buffer
}

} // verus!
