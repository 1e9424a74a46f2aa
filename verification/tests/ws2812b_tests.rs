use pico::ws2812b::{
    generate_addressable_led_buffer, get_addressable_led_config, rgb_to_logic_buffer, INFO_SIZE,
    LED_INFO_SIZE, LOGIC_0, LOGIC_1, NUM_LEDS,
};

#[test]
fn config_carries_the_led_clock_rate() {
    assert_eq!(get_addressable_led_config().frequency, 8_500_000);
}

#[test]
fn buffer_length_constant_covers_the_reset_gap_and_every_led() {
    assert_eq!(LED_INFO_SIZE, 2 + INFO_SIZE * NUM_LEDS);
    assert_eq!(LED_INFO_SIZE, 290);
}

#[test]
fn pure_red_encodes_as_green_low_red_high_blue_low() {
    let buffer = generate_addressable_led_buffer(&[0xFF0000]);
    assert_eq!(buffer.len(), 26);
    // Two all-low reset words lead the frame.
    assert_eq!(buffer[0], 0x0000);
    assert_eq!(buffer[1], 0x0000);
    // Green byte is zero: eight logic-0 symbols.
    for i in 2..10 {
        assert_eq!(buffer[i], LOGIC_0);
    }
    // Red byte is 0xFF: eight logic-1 symbols.
    for i in 10..18 {
        assert_eq!(buffer[i], LOGIC_1);
    }
    // Blue byte is zero again.
    for i in 18..26 {
        assert_eq!(buffer[i], LOGIC_0);
    }
}

#[test]
fn empty_frame_encodes_as_the_reset_gap_alone() {
    let buffer = generate_addressable_led_buffer(&[]);
    assert_eq!(buffer, vec![0x0000, 0x0000]);
}

#[test]
fn two_colors_encode_back_to_back_in_array_order() {
    let buffer = generate_addressable_led_buffer(&[0x00FF00, 0x0000FF]);
    assert_eq!(buffer.len(), 2 + 24 * 2);
    // First LED is pure green: its green byte is all ones.
    for i in 2..10 {
        assert_eq!(buffer[i], LOGIC_1);
    }
    for i in 10..26 {
        assert_eq!(buffer[i], LOGIC_0);
    }
    // Second LED is pure blue: only its blue byte is ones.
    for i in 26..42 {
        assert_eq!(buffer[i], LOGIC_0);
    }
    for i in 42..50 {
        assert_eq!(buffer[i], LOGIC_1);
    }
}

#[test]
fn symbols_follow_each_bit_most_significant_first() {
    // Green 0x02 -> 00000010, red 0x80 -> 10000000, blue 0x01 -> 00000001.
    let buffer = rgb_to_logic_buffer(0x800201);
    assert_eq!(buffer.len(), 24);
    for i in 0..24 {
        let expected = match i {
            6 => LOGIC_1,  // second-least significant green bit
            8 => LOGIC_1,  // most significant red bit
            23 => LOGIC_1, // least significant blue bit
            _ => LOGIC_0,
        };
        assert_eq!(buffer[i], expected);
    }
}

#[test]
fn a_full_chain_frame_fills_the_sized_buffer_exactly() {
    let colors = [0x123456u32; NUM_LEDS];
    let buffer = generate_addressable_led_buffer(&colors);
    assert_eq!(buffer.len(), LED_INFO_SIZE);
}

#[test]
fn a_frame_reuses_the_single_color_expansion() {
    let color = 0x123456;
    let expanded = rgb_to_logic_buffer(color);
    let buffer = generate_addressable_led_buffer(&[color]);
    assert_eq!(&buffer[2..26], &expanded[..]);
}
