//! Well-known PSM (Protocol/Service Multiplexer) values.

use vstd::prelude::*;

verus! {

/// SDP protocol
pub const SDP: u16 = 0x0001;

/// RFCOMM
pub const RFCOMM: u16 = 0x0003;

/// AVDTP
pub const AVDTP: u16 = 0x0019;

} // verus!
