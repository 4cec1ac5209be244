//! Clock configuration for RP2350.

use vstd::prelude::*;

verus! {

/// Clock configuration.
pub struct ClockConfig {
    /// System clock in Hz
    pub sys_clk: u32,
    /// USB clock in Hz (must be 48MHz for USB)
    pub usb_clk: u32,
}

impl Default for ClockConfig {
    /// 150 MHz system clock, 48 MHz USB clock.
    fn default() -> (r: Self)
        ensures
            r.sys_clk == 150_000_000,
            r.usb_clk == 48_000_000,
    {
        ClockConfig { sys_clk: 150_000_000, usb_clk: 48_000_000 }
    }
}

} // verus!
