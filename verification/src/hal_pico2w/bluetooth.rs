//! CYW43439 Bluetooth HCI transport: the framing of what goes to the
//! controller.

pub mod opcode;

use vstd::prelude::*;
use crate::bt_classic::hci::{HciBuffer, hci_bytes};

verus! {

/// Maximum HCI packet size.
pub const MAX_HCI_PACKET: usize = 512;

/// HCI transport error.
#[derive(Debug, Clone, Copy, PartialEq, Eq, Structural)]
pub enum HciError {
    /// Transport not initialized
    NotInitialized,
    /// Send failed
    SendFailed,
    /// Receive failed
    ReceiveFailed,
    /// Timeout
    Timeout,
    /// Buffer overflow
    BufferOverflow,
}

/// HCI transport state.
#[derive(Debug, Clone, Copy, PartialEq, Eq, Structural)]
pub enum HciState {
    /// Not initialized
    Uninitialized,
    /// Initializing
    Initializing,
    /// Ready for communication
    Ready,
    /// Error state
    Error,
}

impl Default for HciState {
    fn default() -> (r: Self)
        ensures
            r == HciState::Uninitialized,
    {
        HciState::Uninitialized
    }
}

/// An HCI command packet: the packet type 0x01, the opcode little-endian,
/// the parameter length in one byte (its low eight bits), the parameters.
pub open spec fn command_packet(opcode: u16, params: Seq<u8>) -> Seq<u8> {
    seq![0x01u8, (opcode % 256) as u8, (opcode / 256) as u8, (params.len() % 256) as u8] + params
}

/// An ACL data packet: the packet type 0x02, the handle and the data
/// length, each in two bytes little-endian (the low sixteen bits of the
/// length), the data.
pub open spec fn acl_packet(handle: u16, data: Seq<u8>) -> Seq<u8> {
    seq![
        0x02u8,
        (handle % 256) as u8,
        (handle / 256) as u8,
        (data.len() % 256) as u8,
        ((data.len() / 256) % 256) as u8,
    ] + data
}

/// Frame an HCI command. Fails with `BufferOverflow` where the packet
/// would be longer than 512 bytes.
pub fn frame_command(opcode: u16, params: &[u8]) -> (r: Result<HciBuffer, HciError>)
    ensures
        r is Ok <==> 4 + params.len() <= 512,
        r matches Ok(packet) ==> hci_bytes(packet) == command_packet(opcode, params@),
        r matches Err(e) ==> e == HciError::BufferOverflow,
{
    let mut packet: HciBuffer = HciBuffer::new();
    if !packet.push(0x01) {
        return Err(HciError::BufferOverflow);
    }
    if !packet.push((opcode % 256) as u8) {
        return Err(HciError::BufferOverflow);
    }
    if !packet.push((opcode / 256) as u8) {
        return Err(HciError::BufferOverflow);
    }
    if !packet.push((params.len() % 256) as u8) {
        return Err(HciError::BufferOverflow);
    }
    if !packet.extend_from_slice(params) {
        return Err(HciError::BufferOverflow);
    }
    assert(hci_bytes(packet) =~= command_packet(opcode, params@));
    Ok(packet)
}

/// Frame ACL data. Fails with `BufferOverflow` where the packet would be
/// longer than 512 bytes.
pub fn frame_acl(handle: u16, data: &[u8]) -> (r: Result<HciBuffer, HciError>)
    ensures
        r is Ok <==> 5 + data.len() <= 512,
        r matches Ok(packet) ==> hci_bytes(packet) == acl_packet(handle, data@),
        r matches Err(e) ==> e == HciError::BufferOverflow,
{
    let mut packet: HciBuffer = HciBuffer::new();
    if !packet.push(0x02) {
        return Err(HciError::BufferOverflow);
    }
    if !packet.push((handle % 256) as u8) {
        return Err(HciError::BufferOverflow);
    }
    if !packet.push((handle / 256) as u8) {
        return Err(HciError::BufferOverflow);
    }
    if !packet.push((data.len() % 256) as u8) {
        return Err(HciError::BufferOverflow);
    }
    if !packet.push(((data.len() / 256) % 256) as u8) {
        return Err(HciError::BufferOverflow);
    }
    if !packet.extend_from_slice(data) {
        return Err(HciError::BufferOverflow);
    }
    assert(hci_bytes(packet) =~= acl_packet(handle, data@));
    Ok(packet)
}

/// Bluetooth HCI transport over CYW43439.
///
/// The transport frames packets; nothing is handed to a controller yet.
pub struct BluetoothHci {
    state: HciState,
}

impl BluetoothHci {
    /// The state of the transport.
    pub closed spec fn spec_state(&self) -> HciState {
        self.state
    }

    /// Create a new HCI transport (uninitialized).
    pub fn new() -> (r: Self)
        ensures
            r.spec_state() == HciState::Uninitialized,
    {
        BluetoothHci { state: HciState::Uninitialized }
    }

    /// Check if transport is ready.
    pub fn is_ready(&self) -> (r: bool)
        ensures
            r == (self.spec_state() == HciState::Ready),
    {
        self.state == HciState::Ready
    }

    /// Get current state.
    pub fn state(&self) -> (r: HciState)
        ensures
            r == self.spec_state(),
    {
        self.state
    }

    /// Send an HCI command: `NotInitialized` unless the transport is
    /// ready, `BufferOverflow` where the framed command is longer than 512
    /// bytes, else success.
    pub fn send_command(&mut self, opcode: u16, params: &[u8]) -> (r: Result<(), HciError>)
        ensures
            final(self).spec_state() == old(self).spec_state(),
            r == (if old(self).spec_state() != HciState::Ready {
                Err::<(), HciError>(HciError::NotInitialized)
            } else if 4 + params.len() > 512 {
                Err::<(), HciError>(HciError::BufferOverflow)
            } else {
                Ok::<(), HciError>(())
            }),
    {
        if self.state != HciState::Ready {
            return Err(HciError::NotInitialized);
        }
        match frame_command(opcode, params) {
            Ok(_) => Ok(()),
            Err(e) => Err(e),
        }
    }

    /// Send ACL data packet: `NotInitialized` unless the transport is
    /// ready, `BufferOverflow` where the framed packet is longer than 512
    /// bytes, else success.
    pub fn send_acl(&mut self, handle: u16, data: &[u8]) -> (r: Result<(), HciError>)
        ensures
            final(self).spec_state() == old(self).spec_state(),
            r == (if old(self).spec_state() != HciState::Ready {
                Err::<(), HciError>(HciError::NotInitialized)
            } else if 5 + data.len() > 512 {
                Err::<(), HciError>(HciError::BufferOverflow)
            } else {
                Ok::<(), HciError>(())
            }),
    {
        if self.state != HciState::Ready {
            return Err(HciError::NotInitialized);
        }
        match frame_acl(handle, data) {
            Ok(_) => Ok(()),
            Err(e) => Err(e),
        }
    }

    /// Receive an HCI event or ACL data: `NotInitialized` unless the
    /// transport is ready, else nothing received and the buffer untouched.
    pub fn receive(&mut self, _buf: &mut [u8]) -> (r: Result<usize, HciError>)
        ensures
            final(self).spec_state() == old(self).spec_state(),
            final(_buf)@ == old(_buf)@,
            r == (if old(self).spec_state() != HciState::Ready {
                Err::<usize, HciError>(HciError::NotInitialized)
            } else {
                Ok::<usize, HciError>(0usize)
            }),
    {
        if self.state != HciState::Ready {
            return Err(HciError::NotInitialized);
        }
        Ok(0)
    }
}

impl Default for BluetoothHci {
    fn default() -> (r: Self)
        ensures
            r.spec_state() == HciState::Uninitialized,
    {
        BluetoothHci::new()
    }
}

} // verus!
