//! HCI commands for Bluetooth Classic that A2DP streaming needs: local
//! name, class of device and scan enable.

use vstd::prelude::*;
use bt_hci::cmd::{Opcode, OpcodeGroup};

verus! {

/// Opcode group of the controller and baseband commands.
pub const CONTROL_BASEBAND: u8 = 3;

/// The 16-bit opcode of a command: the group in the upper six bits, the
/// command in the lower ten.
pub open spec fn opcode_of(group: u8, command: u16) -> u16 {
    ((group as u16) << 10) | command
}

/// `bt_hci::cmd::Opcode::new` on `bt_hci::cmd::OpcodeGroup::new`, read back
/// with `Opcode::to_raw`: the group shifted left by ten bits, or-ed with
/// the command.
#[verifier::external_body]
fn raw_opcode(group: u8, command: u16) -> (raw: u16)
    ensures
        raw == opcode_of(group, command),
{
    Opcode::new(OpcodeGroup::new(group), command).to_raw()
}

/// The three bytes before a command's parameters: the opcode, low byte
/// first, and the length of the parameters.
pub open spec fn command_header(opcode: u16, params_len: u8) -> Seq<u8> {
    seq![(opcode % 256) as u8, (opcode / 256) as u8, params_len]
}

fn header_bytes(opcode: u16, params_len: u8) -> (r: [u8; 3])
    ensures
        r@ == command_header(opcode, params_len),
{
    let r: [u8; 3] = [(opcode % 256) as u8, (opcode / 256) as u8, params_len];
    assert(r@ =~= command_header(opcode, params_len));
    r
}

/// Write Local Name command (OGF=3, OCF=0x13).
///
/// Sets the user-friendly name for the local device.
#[derive(Debug, Clone, Copy)]
pub struct WriteLocalName {
    /// Local name, null-terminated, max 248 bytes
    pub name: [u8; 248],
}

impl WriteLocalName {
    /// The command for a name: its first 247 bytes at most, the rest of the
    /// 248 bytes zero.
    pub fn new(name_str: &[u8]) -> (r: Self)
        ensures
            forall|i: int|
                0 <= i < 248 ==> r.name[i] == (if i < name_str.len() && i < 247 {
                    name_str[i]
                } else {
                    0
                }),
    {
        let mut name: [u8; 248] = [0u8; 248];
        let len: usize = if name_str.len() < 247 {
            name_str.len()
        } else {
            247
        };
        let mut i: usize = 0;
        while i < len
            invariant
                i <= len <= 247,
                len <= name_str.len(),
                forall|k: int|
                    0 <= k < 248 ==> name[k] == (if k < i {
                        name_str[k]
                    } else {
                        0
                    }),
            decreases len - i,
        {
            name[i] = name_str[i];
            i += 1;
        }
        WriteLocalName { name }
    }

    /// The opcode of the command: `0x0C13`.
    pub fn opcode() -> (r: u16)
        ensures
            r == 0x0C13,
            r == opcode_of(CONTROL_BASEBAND, 0x0013),
    {
        assert(opcode_of(3, 0x0013) == 0x0C13) by (bit_vector);
        raw_opcode(CONTROL_BASEBAND, 0x0013)
    }

    /// Number of bytes of the command on the wire: header and name.
    pub fn size(&self) -> (r: usize)
        ensures
            r == 3 + 248,
    {
        3 + 248
    }

    /// The command's header.
    pub fn header(&self) -> (r: [u8; 3])
        ensures
            r@ == command_header(0x0C13, 248),
    {
        header_bytes(Self::opcode(), 248)
    }
}

/// Write Class of Device command (OGF=3, OCF=0x24).
///
/// Sets the Class of Device for the local device.
#[derive(Debug, Clone, Copy)]
pub struct WriteClassOfDevice {
    /// Class of Device (3 bytes, little-endian)
    pub class: [u8; 3],
}

impl WriteClassOfDevice {
    /// The audio class 0x240404: the audio service, the audio/video major
    /// class, the portable audio minor class.
    pub fn audio() -> (r: Self)
        ensures
            r.class[0] == 0x04,
            r.class[1] == 0x04,
            r.class[2] == 0x24,
    {
        WriteClassOfDevice { class: [0x04, 0x04, 0x24] }
    }

    pub fn new(class: [u8; 3]) -> (r: Self)
        ensures
            r.class == class,
    {
        WriteClassOfDevice { class }
    }

    /// The opcode of the command: `0x0C24`.
    pub fn opcode() -> (r: u16)
        ensures
            r == 0x0C24,
            r == opcode_of(CONTROL_BASEBAND, 0x0024),
    {
        assert(opcode_of(3, 0x0024) == 0x0C24) by (bit_vector);
        raw_opcode(CONTROL_BASEBAND, 0x0024)
    }

    /// Number of bytes of the command on the wire: header and class.
    pub fn size(&self) -> (r: usize)
        ensures
            r == 3 + 3,
    {
        3 + 3
    }

    /// The command's header.
    pub fn header(&self) -> (r: [u8; 3])
        ensures
            r@ == command_header(0x0C24, 3),
    {
        header_bytes(Self::opcode(), 3)
    }
}

/// Write Scan Enable command (OGF=3, OCF=0x1A).
///
/// Controls whether the device is discoverable and/or connectable.
#[derive(Debug, Clone, Copy)]
pub struct WriteScanEnable {
    /// Scan enable value: 0x00 no scans, 0x01 inquiry scan only, 0x02 page
    /// scan only, 0x03 inquiry and page scan.
    pub scan_enable: u8,
}

impl WriteScanEnable {
    /// Disable all scans.
    pub fn disabled() -> (r: Self)
        ensures
            r.scan_enable == 0x00,
    {
        WriteScanEnable { scan_enable: 0x00 }
    }

    /// Inquiry scan only (discoverable but not connectable).
    pub fn inquiry_only() -> (r: Self)
        ensures
            r.scan_enable == 0x01,
    {
        WriteScanEnable { scan_enable: 0x01 }
    }

    /// Page scan only (connectable but not discoverable).
    pub fn page_only() -> (r: Self)
        ensures
            r.scan_enable == 0x02,
    {
        WriteScanEnable { scan_enable: 0x02 }
    }

    /// Both inquiry and page scan (discoverable + connectable).
    pub fn both() -> (r: Self)
        ensures
            r.scan_enable == 0x03,
    {
        WriteScanEnable { scan_enable: 0x03 }
    }

    pub fn new(scan_enable: u8) -> (r: Self)
        ensures
            r.scan_enable == scan_enable,
    {
        WriteScanEnable { scan_enable }
    }

    /// The opcode of the command: `0x0C1A`.
    pub fn opcode() -> (r: u16)
        ensures
            r == 0x0C1A,
            r == opcode_of(CONTROL_BASEBAND, 0x001A),
    {
        assert(opcode_of(3, 0x001A) == 0x0C1A) by (bit_vector);
        raw_opcode(CONTROL_BASEBAND, 0x001A)
    }

    /// Number of bytes of the command on the wire: header and scan mode.
    pub fn size(&self) -> (r: usize)
        ensures
            r == 3 + 1,
    {
        3 + 1
    }

    /// The command's header.
    pub fn header(&self) -> (r: [u8; 3])
        ensures
            r@ == command_header(0x0C1A, 1),
    {
        header_bytes(Self::opcode(), 1)
    }
}

} // verus!
