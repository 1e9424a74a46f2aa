use pico::math::{channels_to_rgb, map32, u32_to_rgb};

#[test]
fn map32_scales_a_channel_onto_a_wider_range() {
    // slope = (1000 - 0) / (255 - 0) = 3 (truncated), so 128 maps to 384.
    assert_eq!(map32(128, 0, 255, 0, 1000), 384);
}

#[test]
fn map32_identity_range() {
    assert_eq!(map32(77, 0, 255, 0, 255), 77);
}

#[test]
fn map32_truncates_the_slope_toward_zero() {
    // slope = 3 / 2 = 1 after truncation.
    assert_eq!(map32(2, 0, 2, 0, 3), 2);
    // A slope below one truncates to zero: every input lands on the start.
    assert_eq!(map32(200, 0, 255, 0, 100), 0);
}

#[test]
fn map32_handles_negative_ranges() {
    // slope = (100 - 0) / (0 - -10) = 10.
    assert_eq!(map32(-5, -10, 0, 0, 100), 50);
    // Descending output range: slope = (-100 - 0) / (10 - 0) = -10.
    assert_eq!(map32(3, 0, 10, 0, -100), -30);
}

#[test]
fn u32_to_rgb_splits_the_channels() {
    assert_eq!(u32_to_rgb(0x123456), (0x12, 0x34, 0x56));
    assert_eq!(u32_to_rgb(0xFF0000), (0xFF, 0x00, 0x00));
    assert_eq!(u32_to_rgb(0x00FF00), (0x00, 0xFF, 0x00));
    assert_eq!(u32_to_rgb(0x0000FF), (0x00, 0x00, 0xFF));
    // Bits above the 24-bit color are ignored by the split.
    assert_eq!(u32_to_rgb(0xAB123456), (0x12, 0x34, 0x56));
}

#[test]
fn channels_to_rgb_packs_the_channels() {
    assert_eq!(channels_to_rgb(0x12, 0x34, 0x56), 0x123456);
    assert_eq!(channels_to_rgb(0, 0, 0), 0);
    assert_eq!(channels_to_rgb(0xFF, 0xFF, 0xFF), 0xFFFFFF);
}

#[test]
fn rgb_channels_round_trip() {
    for &color in &[0u32, 1, 0x80, 0xFF, 0x0100, 0x123456, 0xABCDEF, 0xFFFFFF] {
        let (r, g, b) = u32_to_rgb(color);
        assert_eq!(channels_to_rgb(r, g, b), color);
    }
    for &(r, g, b) in &[(0u8, 0u8, 0u8), (1, 2, 3), (255, 255, 255), (0x12, 0x34, 0x56)] {
        assert_eq!(u32_to_rgb(channels_to_rgb(r, g, b)), (r, g, b));
    }
}
