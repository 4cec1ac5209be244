//! System clock frequencies.

use vstd::prelude::*;

verus! {

/// System clock (default)
pub const SYS_CLK_HZ: u32 = 150_000_000;

/// USB clock (must be 48MHz)
pub const USB_CLK_HZ: u32 = 48_000_000;

/// PLL reference
pub const XOSC_HZ: u32 = 12_000_000;

} // verus!
