//! Bluetooth Classic host stack for A2DP: L2CAP, SDP, AVDTP and the A2DP
//! source profile on top of them.

pub mod a2dp;
pub mod avdtp;
pub mod hci;
pub mod l2cap;
pub mod sdp;

use vstd::prelude::*;

verus! {

/// Bluetooth device address (6 bytes).
#[derive(Debug, Clone, Copy, PartialEq, Eq)]
pub struct BdAddr(pub [u8; 6]);

impl BdAddr {
    /// Create a new Bluetooth address.
    pub fn new(addr: [u8; 6]) -> (r: Self)
        ensures
            r.0 == addr,
    {
        BdAddr(addr)
    }

    /// Get the address bytes.
    pub fn bytes(&self) -> (r: &[u8; 6])
        ensures
            *r == self.0,
    {
        &self.0
    }
}

impl Default for BdAddr {
    fn default() -> (r: Self)
        ensures
            forall|i: int| 0 <= i < 6 ==> r.0[i] == 0,
    {
        BdAddr([0u8; 6])
    }
}

/// Common error type for Bluetooth operations.
#[derive(Debug, Clone, Copy, PartialEq, Eq, Structural)]
pub enum BtError {
    /// HCI error
    Hci(u8),
    /// L2CAP error
    L2cap(u8),
    /// AVDTP error
    Avdtp(u8),
    /// Timeout
    Timeout,
    /// Connection failed
    ConnectionFailed,
    /// Not connected
    NotConnected,
    /// Invalid state
    InvalidState,
    /// Buffer too small
    BufferTooSmall,
    /// Invalid parameter
    InvalidParameter,
}

} // verus!
