//! Hardware abstraction for the Raspberry Pi Pico 2 W: the Bluetooth HCI
//! transport, clock configuration and the status LED.

pub mod bluetooth;
pub mod clocks;
pub mod clocks_const;
pub mod led;
pub mod pins;

use vstd::prelude::*;

verus! {

/// Pico 2 W hardware configuration.
pub struct Pico2WHardware {}

impl Pico2WHardware {
    /// Initialize all hardware.
    pub fn init() -> (r: Self) {
        Pico2WHardware {  }
    }
}

} // verus!
