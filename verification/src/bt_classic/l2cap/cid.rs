//! Well-known channel IDs.

use vstd::prelude::*;

verus! {

/// Signaling channel
pub const SIGNALING: u16 = 0x0001;

/// Connectionless channel
pub const CONNECTIONLESS: u16 = 0x0002;

/// First dynamically allocated CID
pub const DYNAMIC_START: u16 = 0x0040;

} // verus!
