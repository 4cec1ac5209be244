//! L2CAP (Logical Link Control and Adaptation Protocol): channel
//! multiplexing over ACL links.

pub mod cid;
pub mod psm;

use vstd::prelude::*;
use crate::bt_classic::hci::{copy_into, le16, u16_from_le};

verus! {

/// Maximum L2CAP payload size.
pub const MAX_L2CAP_PAYLOAD: usize = 1024;

/// L2CAP channel ID type.
pub type ChannelId = u16;

/// L2CAP signaling command codes.
#[derive(Debug, Clone, Copy, PartialEq, Eq, Structural)]
pub enum SignalCode {
    CommandReject,
    ConnectionRequest,
    ConnectionResponse,
    ConfigurationRequest,
    ConfigurationResponse,
    DisconnectionRequest,
    DisconnectionResponse,
    EchoRequest,
    EchoResponse,
    InformationRequest,
    InformationResponse,
}

impl SignalCode {
    /// The command code on the wire.
    pub fn code(self) -> (r: u8)
        ensures
            r == match self {
                SignalCode::CommandReject => 0x01u8,
                SignalCode::ConnectionRequest => 0x02u8,
                SignalCode::ConnectionResponse => 0x03u8,
                SignalCode::ConfigurationRequest => 0x04u8,
                SignalCode::ConfigurationResponse => 0x05u8,
                SignalCode::DisconnectionRequest => 0x06u8,
                SignalCode::DisconnectionResponse => 0x07u8,
                SignalCode::EchoRequest => 0x08u8,
                SignalCode::EchoResponse => 0x09u8,
                SignalCode::InformationRequest => 0x0Au8,
                SignalCode::InformationResponse => 0x0Bu8,
            },
    {
        match self {
            SignalCode::CommandReject => 0x01,
            SignalCode::ConnectionRequest => 0x02,
            SignalCode::ConnectionResponse => 0x03,
            SignalCode::ConfigurationRequest => 0x04,
            SignalCode::ConfigurationResponse => 0x05,
            SignalCode::DisconnectionRequest => 0x06,
            SignalCode::DisconnectionResponse => 0x07,
            SignalCode::EchoRequest => 0x08,
            SignalCode::EchoResponse => 0x09,
            SignalCode::InformationRequest => 0x0A,
            SignalCode::InformationResponse => 0x0B,
        }
    }
}

/// L2CAP channel state.
#[derive(Debug, Clone, Copy, PartialEq, Eq, Structural)]
pub enum ChannelState {
    Closed,
    WaitConnect,
    WaitConnectRsp,
    Config,
    Open,
    WaitDisconnect,
}

impl Default for ChannelState {
    fn default() -> (r: Self)
        ensures
            r == ChannelState::Closed,
    {
        ChannelState::Closed
    }
}

/// L2CAP channel.
#[derive(Debug)]
pub struct Channel {
    /// Local channel ID
    pub local_cid: ChannelId,
    /// Remote channel ID
    pub remote_cid: ChannelId,
    /// Protocol/Service Multiplexer
    pub psm: u16,
    /// Channel state
    pub state: ChannelState,
    /// Negotiated MTU
    pub mtu: u16,
}

impl Channel {
    /// Create a new channel: closed, no remote end yet, the default L2CAP
    /// MTU of 672.
    pub fn new(local_cid: ChannelId, psm: u16) -> (r: Self)
        ensures
            r.local_cid == local_cid,
            r.remote_cid == 0,
            r.psm == psm,
            r.state == ChannelState::Closed,
            r.mtu == 672,
    {
        Channel { local_cid, remote_cid: 0, psm, state: ChannelState::Closed, mtu: 672 }
    }
}

/// A byte buffer of capacity 1024 that lives in the value itself: a
/// `heapless::Vec<u8, 1024>`.
#[verifier::external_body]
pub struct L2capBuffer {
    inner: heapless::Vec<u8, 1024>,
}

/// The bytes a buffer holds.
pub uninterp spec fn l2cap_bytes(v: L2capBuffer) -> Seq<u8>;

impl L2capBuffer {
    /// `heapless::Vec::new`: an empty vector.
    #[verifier::external_body]
    pub(crate) fn new() -> (v: Self)
        ensures
            l2cap_bytes(v) == Seq::<u8>::empty(),
    {
        L2capBuffer { inner: heapless::Vec::new() }
    }

    /// `heapless::Vec::len`: the number of bytes held, never more than the
    /// capacity of 1024.
    #[verifier::external_body]
    pub(crate) fn len(&self) -> (n: usize)
        ensures
            n == l2cap_bytes(*self).len(),
            n <= 1024,
    {
        self.inner.len()
    }

    /// `heapless::Vec::extend_from_slice`: appends all of `other` if the
    /// result fits in 1024 bytes, else changes nothing and reports failure.
    #[verifier::external_body]
    pub(crate) fn extend_from_slice(&mut self, other: &[u8]) -> (ok: bool)
        ensures
            ok == (l2cap_bytes(*old(self)).len() + other@.len() <= 1024),
            l2cap_bytes(*final(self)) == (if ok {
                l2cap_bytes(*old(self)) + other@
            } else {
                l2cap_bytes(*old(self))
            }),
    {
        self.inner.extend_from_slice(other).is_ok()
    }

    /// `heapless::Vec::as_slice`: the bytes held, in order.
    #[verifier::external_body]
    pub(crate) fn as_slice(&self) -> (s: &[u8])
        ensures
            s@ == l2cap_bytes(*self),
    {
        self.inner.as_slice()
    }

    /// The bytes held, copied out.
    pub fn to_vec(&self) -> (r: Vec<u8>)
        ensures
            r@ == l2cap_bytes(*self),
    {
        let s: &[u8] = self.as_slice();
        let mut r: Vec<u8> = Vec::new();
        let mut i: usize = 0;
        while i < s.len()
            invariant
                i <= s.len(),
                r@ == s@.subrange(0, i as int),
            decreases s.len() - i,
        {
            r.push(s[i]);
            assert(r@ =~= s@.subrange(0, i + 1));
            i += 1;
        }
        assert(s@.subrange(0, s.len() as int) =~= s@);
        r
    }
}

/// L2CAP packet.
pub struct Packet {
    /// Channel ID
    pub cid: ChannelId,
    /// Payload data
    pub data: L2capBuffer,
}

impl Packet {
    /// The payload bytes.
    pub open spec fn payload(&self) -> Seq<u8> {
        l2cap_bytes(self.data)
    }

    /// Create a new L2CAP packet with an empty payload.
    pub fn new(cid: ChannelId) -> (r: Self)
        ensures
            r.cid == cid,
            r.payload() == Seq::<u8>::empty(),
    {
        Packet { cid, data: L2capBuffer::new() }
    }

    /// Parse from bytes: a 4-byte header (payload length, channel ID, both
    /// little-endian) and the payload. Bytes after the payload are ignored.
    /// Fails where the header or the payload is cut short or the payload is
    /// longer than 1024 bytes.
    pub fn from_bytes(bytes: &[u8]) -> (r: Option<Self>)
        ensures
            r is Some <==> bytes.len() >= 4 && bytes.len() >= 4 + le16(bytes[0], bytes[1]) && le16(
                bytes[0],
                bytes[1],
            ) <= 1024,
            r matches Some(p) ==> {
                &&& p.cid == le16(bytes[2], bytes[3])
                &&& p.payload() == bytes@.subrange(4, 4 + le16(bytes[0], bytes[1]))
            },
    {
        if bytes.len() < 4 {
            return None;
        }
        let length: usize = u16_from_le(bytes[0], bytes[1]) as usize;
        let cid: u16 = u16_from_le(bytes[2], bytes[3]);
        if bytes.len() < 4 + length {
            return None;
        }
        let mut data: L2capBuffer = L2capBuffer::new();
        let ok: bool = data.extend_from_slice(&bytes[4..4 + length]);
        if !ok {
            return None;
        }
        assert(Seq::<u8>::empty() + bytes@.subrange(4, 4 + length) =~= bytes@.subrange(
            4,
            4 + length,
        ));
        Some(Packet { cid, data })
    }

    /// Serialize to bytes: the header, then the payload. Returns the number
    /// of bytes written; `buf` must have room for them.
    pub fn to_bytes(&self, buf: &mut [u8]) -> (n: usize)
        requires
            old(buf).len() >= 4 + self.payload().len(),
        ensures
            n == 4 + self.payload().len(),
            final(buf).len() == old(buf).len(),
            final(buf)[0] == self.payload().len() % 256,
            final(buf)[1] == self.payload().len() / 256,
            final(buf)[2] == self.cid % 256,
            final(buf)[3] == self.cid / 256,
            final(buf)@.subrange(4, n as int) == self.payload(),
            final(buf)@.subrange(n as int, old(buf).len() as int) == old(buf)@.subrange(
                n as int,
                old(buf).len() as int,
            ),
    {
        let len: usize = self.data.len();
        buf[0] = (len % 256) as u8;
        buf[1] = (len / 256) as u8;
        buf[2] = (self.cid % 256) as u8;
        buf[3] = (self.cid / 256) as u8;
        copy_into(buf, 4, self.data.as_slice());
        assert(buf@.subrange(4, 4 + len) =~= self.payload());
        assert(buf@.subrange(4 + len, buf.len() as int) =~= old(buf)@.subrange(
            4 + len,
            buf.len() as int,
        ));
        4 + len
    }
}

} // verus!
