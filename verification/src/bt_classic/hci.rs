//! HCI (Host Controller Interface) layer: packet types, connection handles
//! and ACL data packets.

use vstd::prelude::*;

verus! {

/// Maximum HCI packet size.
pub const MAX_HCI_PACKET_SIZE: usize = 512;

/// HCI packet type.
#[derive(Debug, Clone, Copy, PartialEq, Eq, Structural)]
pub enum PacketType {
    Command,
    AclData,
    ScoData,
    Event,
}

impl PacketType {
    /// The packet indicator byte on the wire.
    pub fn code(self) -> (r: u8)
        ensures
            r == match self {
                PacketType::Command => 0x01u8,
                PacketType::AclData => 0x02u8,
                PacketType::ScoData => 0x03u8,
                PacketType::Event => 0x04u8,
            },
    {
        match self {
            PacketType::Command => 0x01,
            PacketType::AclData => 0x02,
            PacketType::ScoData => 0x03,
            PacketType::Event => 0x04,
        }
    }
}

/// HCI connection handle.
#[derive(Debug, Clone, Copy, PartialEq, Eq, Structural)]
pub struct ConnectionHandle(pub u16);

impl ConnectionHandle {
    /// Create from raw handle value; only the low 12 bits are kept.
    pub fn new(handle: u16) -> (r: Self)
        ensures
            r.0 == handle % 4096,
    {
        assert(handle & 0x0FFF == handle % 4096) by (bit_vector);
        ConnectionHandle(handle & 0x0FFF)
    }

    /// Get the raw handle value.
    pub fn raw(&self) -> (r: u16)
        ensures
            r == self.0,
    {
        self.0
    }
}

impl Default for ConnectionHandle {
    fn default() -> (r: Self)
        ensures
            r.0 == 0,
    {
        ConnectionHandle(0)
    }
}

/// HCI event codes.
#[derive(Debug, Clone, Copy, PartialEq, Eq, Structural)]
pub enum EventCode {
    InquiryComplete,
    InquiryResult,
    ConnectionComplete,
    ConnectionRequest,
    DisconnectionComplete,
    AuthenticationComplete,
    RemoteNameRequestComplete,
    CommandComplete,
    CommandStatus,
    NumberOfCompletedPackets,
    IoCapabilityRequest,
    IoCapabilityResponse,
    UserConfirmationRequest,
    SimplePairingComplete,
}

impl EventCode {
    /// The event code on the wire.
    pub fn code(self) -> (r: u8)
        ensures
            r == match self {
                EventCode::InquiryComplete => 0x01u8,
                EventCode::InquiryResult => 0x02u8,
                EventCode::ConnectionComplete => 0x03u8,
                EventCode::ConnectionRequest => 0x04u8,
                EventCode::DisconnectionComplete => 0x05u8,
                EventCode::AuthenticationComplete => 0x06u8,
                EventCode::RemoteNameRequestComplete => 0x07u8,
                EventCode::CommandComplete => 0x0Eu8,
                EventCode::CommandStatus => 0x0Fu8,
                EventCode::NumberOfCompletedPackets => 0x13u8,
                EventCode::IoCapabilityRequest => 0x31u8,
                EventCode::IoCapabilityResponse => 0x32u8,
                EventCode::UserConfirmationRequest => 0x33u8,
                EventCode::SimplePairingComplete => 0x36u8,
            },
    {
        match self {
            EventCode::InquiryComplete => 0x01,
            EventCode::InquiryResult => 0x02,
            EventCode::ConnectionComplete => 0x03,
            EventCode::ConnectionRequest => 0x04,
            EventCode::DisconnectionComplete => 0x05,
            EventCode::AuthenticationComplete => 0x06,
            EventCode::RemoteNameRequestComplete => 0x07,
            EventCode::CommandComplete => 0x0E,
            EventCode::CommandStatus => 0x0F,
            EventCode::NumberOfCompletedPackets => 0x13,
            EventCode::IoCapabilityRequest => 0x31,
            EventCode::IoCapabilityResponse => 0x32,
            EventCode::UserConfirmationRequest => 0x33,
            EventCode::SimplePairingComplete => 0x36,
        }
    }
}

/// A byte buffer of capacity 512 that lives in the value itself: a
/// `heapless::Vec<u8, 512>`.
#[verifier::external_body]
pub struct HciBuffer {
    inner: heapless::Vec<u8, 512>,
}

/// The bytes a buffer holds.
pub uninterp spec fn hci_bytes(v: HciBuffer) -> Seq<u8>;

impl HciBuffer {
    /// `heapless::Vec::new`: an empty vector.
    #[verifier::external_body]
    pub(crate) fn new() -> (v: Self)
        ensures
            hci_bytes(v) == Seq::<u8>::empty(),
    {
        HciBuffer { inner: heapless::Vec::new() }
    }

    /// `heapless::Vec::len`: the number of bytes held, never more than the
    /// capacity of 512.
    #[verifier::external_body]
    pub(crate) fn len(&self) -> (n: usize)
        ensures
            n == hci_bytes(*self).len(),
            n <= 512,
    {
        self.inner.len()
    }

    /// `heapless::Vec::push`: appends the byte if fewer than 512 are held,
    /// else changes nothing and reports failure.
    #[verifier::external_body]
    pub(crate) fn push(&mut self, item: u8) -> (ok: bool)
        ensures
            ok == (hci_bytes(*old(self)).len() < 512),
            hci_bytes(*final(self)) == (if ok {
                hci_bytes(*old(self)).push(item)
            } else {
                hci_bytes(*old(self))
            }),
    {
        self.inner.push(item).is_ok()
    }

    /// `heapless::Vec::extend_from_slice`: appends all of `other` if the
    /// result fits in 512 bytes, else changes nothing and reports failure.
    #[verifier::external_body]
    pub(crate) fn extend_from_slice(&mut self, other: &[u8]) -> (ok: bool)
        ensures
            ok == (hci_bytes(*old(self)).len() + other@.len() <= 512),
            hci_bytes(*final(self)) == (if ok {
                hci_bytes(*old(self)) + other@
            } else {
                hci_bytes(*old(self))
            }),
    {
        self.inner.extend_from_slice(other).is_ok()
    }

    /// `heapless::Vec::as_slice`: the bytes held, in order.
    #[verifier::external_body]
    pub(crate) fn as_slice(&self) -> (s: &[u8])
        ensures
            s@ == hci_bytes(*self),
    {
        self.inner.as_slice()
    }

    /// The bytes held, copied out.
    pub fn to_vec(&self) -> (r: Vec<u8>)
        ensures
            r@ == hci_bytes(*self),
    {
        let s: &[u8] = self.as_slice();
        let mut r: Vec<u8> = Vec::new();
        let mut i: usize = 0;
        while i < s.len()
            invariant
                i <= s.len(),
                r@ == s@.subrange(0, i as int),
            decreases s.len() - i,
        {
            r.push(s[i]);
            assert(r@ =~= s@.subrange(0, i + 1));
            i += 1;
        }
        assert(s@.subrange(0, s.len() as int) =~= s@);
        r
    }
}

/// The 16-bit value of two bytes, least significant first.
pub open spec fn le16(lo: u8, hi: u8) -> int {
    lo + 256 * hi
}

/// Two bytes, least significant first, as a 16-bit value.
pub fn u16_from_le(lo: u8, hi: u8) -> (r: u16)
    ensures
        r == le16(lo, hi),
{
    (hi as u16) * 256 + (lo as u16)
}

/// Copy `src` into `dst` from offset `at`.
pub fn copy_into(dst: &mut [u8], at: usize, src: &[u8])
    requires
        at + src.len() <= old(dst).len(),
    ensures
        final(dst).len() == old(dst).len(),
        forall|i: int|
            0 <= i < old(dst).len() ==> final(dst)[i] == (if at <= i < at + src.len() {
                src[i - at]
            } else {
                old(dst)[i]
            }),
{
    let mut i: usize = 0;
    while i < src.len()
        invariant
            i <= src.len(),
            at + src.len() <= dst.len(),
            dst.len() == old(dst).len(),
            forall|k: int|
                0 <= k < dst.len() ==> dst[k] == (if at <= k < at + i {
                    src[k - at]
                } else {
                    old(dst)[k]
                }),
        decreases src.len() - i,
    {
        dst[at + i] = src[i];
        i += 1;
    }
}

/// ACL data packet.
pub struct AclPacket {
    /// Connection handle
    pub handle: ConnectionHandle,
    /// Packet boundary flag
    pub pb_flag: u8,
    /// Broadcast flag
    pub bc_flag: u8,
    /// Data payload
    pub data: HciBuffer,
}

impl AclPacket {
    /// The payload bytes.
    pub open spec fn payload(&self) -> Seq<u8> {
        hci_bytes(self.data)
    }

    /// The handle-and-flags word of the header: the handle in the low 12
    /// bits, then the packet boundary flag, then the broadcast flag.
    pub open spec fn handle_flags(&self) -> u16 {
        self.handle.0 | ((self.pb_flag as u16) << 12) | ((self.bc_flag as u16) << 14)
    }

    /// Create a new ACL packet with an empty payload.
    pub fn new(handle: ConnectionHandle, pb_flag: u8, bc_flag: u8) -> (r: Self)
        ensures
            r.handle == handle,
            r.pb_flag == pb_flag,
            r.bc_flag == bc_flag,
            r.payload() == Seq::<u8>::empty(),
    {
        AclPacket { handle, pb_flag, bc_flag, data: HciBuffer::new() }
    }

    /// Create from raw bytes: a 4-byte header (handle and flags, payload
    /// length, both little-endian) and the payload. Bytes after the payload
    /// are ignored. Fails where the header or the payload is cut short or
    /// the payload is longer than 512 bytes.
    pub fn from_bytes(bytes: &[u8]) -> (r: Option<Self>)
        ensures
            r is Some <==> bytes.len() >= 4 && bytes.len() >= 4 + le16(bytes[2], bytes[3]) && le16(
                bytes[2],
                bytes[3],
            ) <= 512,
            r matches Some(p) ==> {
                &&& p.handle.0 == le16(bytes[0], bytes[1]) % 4096
                &&& p.pb_flag == (le16(bytes[0], bytes[1]) / 4096) % 4
                &&& p.bc_flag == le16(bytes[0], bytes[1]) / 16384
                &&& p.payload() == bytes@.subrange(4, 4 + le16(bytes[2], bytes[3]))
            },
    {
        if bytes.len() < 4 {
            return None;
        }
        let handle_flags: u16 = u16_from_le(bytes[0], bytes[1]);
        let handle: ConnectionHandle = ConnectionHandle::new(handle_flags & 0x0FFF);
        assert(handle_flags & 0x0FFF == handle_flags % 4096) by (bit_vector);
        assert((handle_flags >> 12) & 0x03 == (handle_flags / 4096) % 4) by (bit_vector);
        assert((handle_flags >> 14) & 0x03 == handle_flags / 16384) by (bit_vector);
        let pb_flag: u8 = ((handle_flags >> 12) & 0x03) as u8;
        let bc_flag: u8 = ((handle_flags >> 14) & 0x03) as u8;

        let data_len: usize = u16_from_le(bytes[2], bytes[3]) as usize;
        if bytes.len() < 4 + data_len {
            return None;
        }
        let mut data: HciBuffer = HciBuffer::new();
        let ok: bool = data.extend_from_slice(&bytes[4..4 + data_len]);
        if !ok {
            return None;
        }
        assert(Seq::<u8>::empty() + bytes@.subrange(4, 4 + data_len) =~= bytes@.subrange(
            4,
            4 + data_len,
        ));
        Some(AclPacket { handle, pb_flag, bc_flag, data })
    }

    /// Serialize to bytes: the header, then the payload. Returns the number
    /// of bytes written; `buf` must have room for them.
    pub fn to_bytes(&self, buf: &mut [u8]) -> (n: usize)
        requires
            old(buf).len() >= 4 + self.payload().len(),
        ensures
            n == 4 + self.payload().len(),
            final(buf).len() == old(buf).len(),
            final(buf)[0] == self.handle_flags() % 256,
            final(buf)[1] == self.handle_flags() / 256,
            final(buf)[2] == self.payload().len() % 256,
            final(buf)[3] == self.payload().len() / 256,
            final(buf)@.subrange(4, n as int) == self.payload(),
            final(buf)@.subrange(n as int, old(buf).len() as int) == old(buf)@.subrange(
                n as int,
                old(buf).len() as int,
            ),
    {
        let len: usize = self.data.len();
        let handle_flags: u16 = self.handle.0 | ((self.pb_flag as u16) << 12) | ((
        self.bc_flag as u16) << 14);

        buf[0] = (handle_flags % 256) as u8;
        buf[1] = (handle_flags / 256) as u8;
        buf[2] = (len % 256) as u8;
        buf[3] = (len / 256) as u8;
        copy_into(buf, 4, self.data.as_slice());
        assert(buf@.subrange(4, 4 + len) =~= self.payload());
        assert(buf@.subrange(4 + len, buf.len() as int) =~= old(buf)@.subrange(
            4 + len,
            buf.len() as int,
        ));
        4 + len
    }
}

} // verus!
