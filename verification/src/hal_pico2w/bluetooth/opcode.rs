//! Common HCI opcodes.

use vstd::prelude::*;

verus! {

// Link Control commands (OGF 0x01)
pub const INQUIRY: u16 = 0x0401;

pub const CREATE_CONNECTION: u16 = 0x0405;

pub const DISCONNECT: u16 = 0x0406;

pub const ACCEPT_CONNECTION_REQUEST: u16 = 0x0409;

// Link Policy commands (OGF 0x02)
pub const WRITE_LINK_POLICY_SETTINGS: u16 = 0x080D;

// Controller & Baseband commands (OGF 0x03)
pub const RESET: u16 = 0x0C03;

pub const WRITE_SCAN_ENABLE: u16 = 0x0C1A;

pub const WRITE_CLASS_OF_DEVICE: u16 = 0x0C24;

pub const WRITE_LOCAL_NAME: u16 = 0x0C13;

pub const WRITE_SIMPLE_PAIRING_MODE: u16 = 0x0C56;

// Informational commands (OGF 0x04)
pub const READ_BD_ADDR: u16 = 0x1009;

pub const READ_LOCAL_VERSION: u16 = 0x1001;

} // verus!
