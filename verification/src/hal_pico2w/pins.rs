//! GPIO pin assignments for Pico 2 W.

use vstd::prelude::*;

verus! {

/// CYW43439 power pin
pub const CYW43_PWR: u8 = 23;

/// CYW43439 data/command pin (directly connected)
pub const CYW43_CS: u8 = 25;

/// LED pin (CYW43 GPIO 0)
pub const LED: u8 = 0;

/// Default SPI pins for external peripherals
pub const SPI0_SCK: u8 = 18;

pub const SPI0_MOSI: u8 = 19;

pub const SPI0_MISO: u8 = 16;

/// I2C pins
pub const I2C0_SDA: u8 = 4;

pub const I2C0_SCL: u8 = 5;

} // verus!
