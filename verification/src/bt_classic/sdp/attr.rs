//! SDP attribute IDs.

use vstd::prelude::*;

verus! {

/// Service record handle
pub const SERVICE_RECORD_HANDLE: u16 = 0x0000;

/// Service class ID list
pub const SERVICE_CLASS_ID_LIST: u16 = 0x0001;

/// Protocol descriptor list
pub const PROTOCOL_DESCRIPTOR_LIST: u16 = 0x0004;

/// Bluetooth profile descriptor list
pub const PROFILE_DESCRIPTOR_LIST: u16 = 0x0009;

/// Supported features
pub const SUPPORTED_FEATURES: u16 = 0x0311;

} // verus!
