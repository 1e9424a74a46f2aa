//! Hardware-abstraction and protocol-encoding layer for an RP2040 board that
//! drives RGB illumination: pin-to-PWM-channel mapping and duty-cycle control,
//! an SPI clock-divider search, a GPIO function-select driver, and a bitstream
//! encoder that turns 24-bit colors into the pulse symbols of a single-wire
//! addressable-LED protocol.
//!
//! Every driver keeps a model of the peripheral registers it writes, stated as
//! plain values; the contracts pin down exactly which register holds which
//! value after each operation. The memory-mapped writes themselves live in the
//! surrounding application, which mirrors each model operation onto the real
//! register block.

pub mod gpio;
pub mod math;
pub mod pwm;
pub mod spi;
pub mod ws2812b;
