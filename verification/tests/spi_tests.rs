use pico::spi::{compute_divider, SPIDriver, SPISelector, SpiDivider, SpiError};

#[test]
fn divider_for_the_led_clock_rate() {
    // 125 MHz peripheral clock down toward 8.5 MHz: smallest even prescale
    // is 2, and 7 is the largest count with 125 MHz / (2 * 7) still above
    // the target.
    let divider = compute_divider(125_000_000, 8_500_000).unwrap();
    assert_eq!(divider, SpiDivider { prescale: 2, postdiv: 7 });
    assert!(125_000_000 / (2 * 7) > 8_500_000);
    assert!(125_000_000 / (2 * 8) <= 8_500_000);
}

#[test]
fn divider_prescale_is_never_zero_or_odd() {
    for &(freq, baud) in &[
        (125_000_000u32, 8_500_000u32),
        (125_000_000, 1_000_000),
        (125_000_000, 2_000),
        (48_000_000, 115_200),
        (1, 1),
    ] {
        let divider = compute_divider(freq, baud).unwrap();
        assert!(divider.prescale >= 2);
        assert_eq!(divider.prescale % 2, 0);
    }
}

#[test]
fn divider_fails_when_no_prescale_reaches_the_rate() {
    // Even the largest divider pair cannot bring 4 GHz down to 1 Hz.
    assert_eq!(
        compute_divider(4_000_000_000, 1),
        Err(SpiError::UnreachableBaudRate)
    );
    // A zero rate is unreachable outright.
    assert_eq!(
        compute_divider(125_000_000, 0),
        Err(SpiError::UnreachableBaudRate)
    );
}

#[test]
fn divider_count_is_zero_when_even_the_finest_count_undershoots() {
    // 100 Hz / 2 is already below 1 kHz, so no count in 1..=255 works.
    let divider = compute_divider(100, 1000).unwrap();
    assert_eq!(divider, SpiDivider { prescale: 2, postdiv: 0 });
}

#[test]
fn set_baud_rate_programs_the_selected_port() {
    let mut driver = SPIDriver::begin();
    let pair = driver
        .set_baud_rate(125_000_000, 8_500_000, SPISelector::Spi0)
        .unwrap();
    assert_eq!(pair, (2, 7));
    // Prescale lands in the clock-prescale register, the count in bits
    // 8..16 of the first control register.
    assert_eq!(
        driver.read_registers(SPISelector::Spi0),
        (7 << 8, 0, 0, 2)
    );
    // The other port stays untouched.
    assert_eq!(driver.read_registers(SPISelector::Spi1), (0, 0, 0, 0));
}

#[test]
fn set_baud_rate_failure_leaves_the_registers_alone() {
    let mut driver = SPIDriver::begin();
    let r = driver.set_baud_rate(125_000_000, 0, SPISelector::Spi1);
    assert_eq!(r, Err(SpiError::UnreachableBaudRate));
    assert_eq!(driver.read_registers(SPISelector::Spi0), (0, 0, 0, 0));
    assert_eq!(driver.read_registers(SPISelector::Spi1), (0, 0, 0, 0));
}

#[test]
fn send_data_programs_the_frame_and_pushes_every_word() {
    let mut driver = SPIDriver::begin();
    let words: Vec<u16> = vec![0x00E0, 0x00FC, 0x00E0];
    driver.send_data(8, &words, SPISelector::Spi0);
    let (sspcr0, sspcr1, sspdr, sspcpsr) = driver.read_registers(SPISelector::Spi0);
    // Frame size in the low bits of the first control register, port
    // enabled in master mode, last word left in the data register.
    assert_eq!(sspcr0, 8);
    assert_eq!(sspcr1, 2);
    assert_eq!(sspdr, 0x00E0);
    assert_eq!(sspcpsr, 0);
    assert_eq!(driver.read_registers(SPISelector::Spi1), (0, 0, 0, 0));
}

#[test]
fn send_data_frame_size_write_clears_the_clock_rate_field() {
    let mut driver = SPIDriver::begin();
    driver
        .set_baud_rate(125_000_000, 8_500_000, SPISelector::Spi0)
        .unwrap();
    assert_eq!(driver.read_registers(SPISelector::Spi0).0, 7 << 8);
    // The whole-register frame-size write wipes the clock-rate field that
    // set_baud_rate had programmed.
    driver.send_data(8, &[0x0001], SPISelector::Spi0);
    assert_eq!(driver.read_registers(SPISelector::Spi0).0, 8);
    // The prescale register keeps its value.
    assert_eq!(driver.read_registers(SPISelector::Spi0).3, 2);
}

#[test]
fn send_data_with_no_words_only_configures_the_port() {
    let mut driver = SPIDriver::begin();
    driver.send_data(15, &[], SPISelector::Spi1);
    assert_eq!(driver.read_registers(SPISelector::Spi1), (15, 2, 0, 0));
}
