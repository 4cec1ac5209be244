//! AVDTP (Audio/Video Distribution Transport Protocol): stream endpoints,
//! codec capabilities and the media packet header.

use vstd::prelude::*;

verus! {

/// Maximum AVDTP signaling packet size.
pub const MAX_AVDTP_SIGNAL: usize = 256;

/// AVDTP signal identifiers.
#[derive(Debug, Clone, Copy, PartialEq, Eq, Structural)]
pub enum SignalId {
    Discover,
    GetCapabilities,
    SetConfiguration,
    GetConfiguration,
    Reconfigure,
    Open,
    Start,
    Close,
    Suspend,
    Abort,
    SecurityControl,
    GetAllCapabilities,
    DelayReport,
}

impl SignalId {
    /// The signal identifier on the wire.
    pub fn code(self) -> (r: u8)
        ensures
            r == match self {
                SignalId::Discover => 0x01u8,
                SignalId::GetCapabilities => 0x02u8,
                SignalId::SetConfiguration => 0x03u8,
                SignalId::GetConfiguration => 0x04u8,
                SignalId::Reconfigure => 0x05u8,
                SignalId::Open => 0x06u8,
                SignalId::Start => 0x07u8,
                SignalId::Close => 0x08u8,
                SignalId::Suspend => 0x09u8,
                SignalId::Abort => 0x0Au8,
                SignalId::SecurityControl => 0x0Bu8,
                SignalId::GetAllCapabilities => 0x0Cu8,
                SignalId::DelayReport => 0x0Du8,
            },
    {
        match self {
            SignalId::Discover => 0x01,
            SignalId::GetCapabilities => 0x02,
            SignalId::SetConfiguration => 0x03,
            SignalId::GetConfiguration => 0x04,
            SignalId::Reconfigure => 0x05,
            SignalId::Open => 0x06,
            SignalId::Start => 0x07,
            SignalId::Close => 0x08,
            SignalId::Suspend => 0x09,
            SignalId::Abort => 0x0A,
            SignalId::SecurityControl => 0x0B,
            SignalId::GetAllCapabilities => 0x0C,
            SignalId::DelayReport => 0x0D,
        }
    }
}

/// AVDTP message type.
#[derive(Debug, Clone, Copy, PartialEq, Eq, Structural)]
pub enum MessageType {
    Command,
    GeneralReject,
    ResponseAccept,
    ResponseReject,
}

impl MessageType {
    /// The message type on the wire.
    pub fn code(self) -> (r: u8)
        ensures
            r == match self {
                MessageType::Command => 0x00u8,
                MessageType::GeneralReject => 0x01u8,
                MessageType::ResponseAccept => 0x02u8,
                MessageType::ResponseReject => 0x03u8,
            },
    {
        match self {
            MessageType::Command => 0x00,
            MessageType::GeneralReject => 0x01,
            MessageType::ResponseAccept => 0x02,
            MessageType::ResponseReject => 0x03,
        }
    }
}

/// AVDTP error codes.
#[derive(Debug, Clone, Copy, PartialEq, Eq, Structural)]
pub enum ErrorCode {
    Success,
    BadHeaderFormat,
    BadLength,
    BadAcpSeid,
    SepInUse,
    SepNotInUse,
    BadServiceCategory,
    BadPayloadFormat,
    NotSupportedCommand,
    InvalidCapabilities,
    BadRecoveryType,
    BadMediaTransportFormat,
    BadRecoveryFormat,
    BadRohcFormat,
    BadCpFormat,
    BadMultiplexingFormat,
    UnsupportedConfiguration,
    BadState,
}

impl ErrorCode {
    /// The error code on the wire.
    pub fn code(self) -> (r: u8)
        ensures
            r == match self {
                ErrorCode::Success => 0x00u8,
                ErrorCode::BadHeaderFormat => 0x01u8,
                ErrorCode::BadLength => 0x11u8,
                ErrorCode::BadAcpSeid => 0x12u8,
                ErrorCode::SepInUse => 0x13u8,
                ErrorCode::SepNotInUse => 0x14u8,
                ErrorCode::BadServiceCategory => 0x17u8,
                ErrorCode::BadPayloadFormat => 0x18u8,
                ErrorCode::NotSupportedCommand => 0x19u8,
                ErrorCode::InvalidCapabilities => 0x1Au8,
                ErrorCode::BadRecoveryType => 0x22u8,
                ErrorCode::BadMediaTransportFormat => 0x23u8,
                ErrorCode::BadRecoveryFormat => 0x25u8,
                ErrorCode::BadRohcFormat => 0x26u8,
                ErrorCode::BadCpFormat => 0x27u8,
                ErrorCode::BadMultiplexingFormat => 0x28u8,
                ErrorCode::UnsupportedConfiguration => 0x29u8,
                ErrorCode::BadState => 0x31u8,
            },
    {
        match self {
            ErrorCode::Success => 0x00,
            ErrorCode::BadHeaderFormat => 0x01,
            ErrorCode::BadLength => 0x11,
            ErrorCode::BadAcpSeid => 0x12,
            ErrorCode::SepInUse => 0x13,
            ErrorCode::SepNotInUse => 0x14,
            ErrorCode::BadServiceCategory => 0x17,
            ErrorCode::BadPayloadFormat => 0x18,
            ErrorCode::NotSupportedCommand => 0x19,
            ErrorCode::InvalidCapabilities => 0x1A,
            ErrorCode::BadRecoveryType => 0x22,
            ErrorCode::BadMediaTransportFormat => 0x23,
            ErrorCode::BadRecoveryFormat => 0x25,
            ErrorCode::BadRohcFormat => 0x26,
            ErrorCode::BadCpFormat => 0x27,
            ErrorCode::BadMultiplexingFormat => 0x28,
            ErrorCode::UnsupportedConfiguration => 0x29,
            ErrorCode::BadState => 0x31,
        }
    }
}

/// Stream Endpoint type.
#[derive(Debug, Clone, Copy, PartialEq, Eq, Structural)]
pub enum SepType {
    Source,
    Sink,
}

impl SepType {
    /// The endpoint type on the wire.
    pub fn code(self) -> (r: u8)
        ensures
            r == match self {
                SepType::Source => 0x00u8,
                SepType::Sink => 0x01u8,
            },
    {
        match self {
            SepType::Source => 0x00,
            SepType::Sink => 0x01,
        }
    }
}

/// Media type.
#[derive(Debug, Clone, Copy, PartialEq, Eq, Structural)]
pub enum MediaType {
    Audio,
    Video,
    Multimedia,
}

impl MediaType {
    /// The media type on the wire.
    pub fn code(self) -> (r: u8)
        ensures
            r == match self {
                MediaType::Audio => 0x00u8,
                MediaType::Video => 0x01u8,
                MediaType::Multimedia => 0x02u8,
            },
    {
        match self {
            MediaType::Audio => 0x00,
            MediaType::Video => 0x01,
            MediaType::Multimedia => 0x02,
        }
    }
}

/// Service category for capabilities.
#[derive(Debug, Clone, Copy, PartialEq, Eq, Structural)]
pub enum ServiceCategory {
    MediaTransport,
    Reporting,
    Recovery,
    ContentProtection,
    HeaderCompression,
    Multiplexing,
    MediaCodec,
    DelayReporting,
}

impl ServiceCategory {
    /// The service category on the wire.
    pub fn code(self) -> (r: u8)
        ensures
            r == match self {
                ServiceCategory::MediaTransport => 0x01u8,
                ServiceCategory::Reporting => 0x02u8,
                ServiceCategory::Recovery => 0x03u8,
                ServiceCategory::ContentProtection => 0x04u8,
                ServiceCategory::HeaderCompression => 0x05u8,
                ServiceCategory::Multiplexing => 0x06u8,
                ServiceCategory::MediaCodec => 0x07u8,
                ServiceCategory::DelayReporting => 0x08u8,
            },
    {
        match self {
            ServiceCategory::MediaTransport => 0x01,
            ServiceCategory::Reporting => 0x02,
            ServiceCategory::Recovery => 0x03,
            ServiceCategory::ContentProtection => 0x04,
            ServiceCategory::HeaderCompression => 0x05,
            ServiceCategory::Multiplexing => 0x06,
            ServiceCategory::MediaCodec => 0x07,
            ServiceCategory::DelayReporting => 0x08,
        }
    }
}

/// SBC codec capability.
#[derive(Debug, Clone, Copy, PartialEq, Eq, Structural)]
pub struct SbcCapability {
    /// Supported sampling frequencies (bitmap)
    pub sampling_freq: u8,
    /// Supported channel modes (bitmap)
    pub channel_mode: u8,
    /// Supported block lengths (bitmap)
    pub block_length: u8,
    /// Supported subbands (bitmap)
    pub subbands: u8,
    /// Supported allocation methods (bitmap)
    pub allocation_method: u8,
    /// Minimum bitpool value
    pub min_bitpool: u8,
    /// Maximum bitpool value
    pub max_bitpool: u8,
}

impl Default for SbcCapability {
    fn default() -> (r: Self)
        ensures
            r == (SbcCapability {
                sampling_freq: 0,
                channel_mode: 0,
                block_length: 0,
                subbands: 0,
                allocation_method: 0,
                min_bitpool: 0,
                max_bitpool: 0,
            }),
    {
        SbcCapability {
            sampling_freq: 0,
            channel_mode: 0,
            block_length: 0,
            subbands: 0,
            allocation_method: 0,
            min_bitpool: 0,
            max_bitpool: 0,
        }
    }
}

impl SbcCapability {
    /// SBC capability supporting all standard options.
    pub fn all() -> (r: Self)
        ensures
            r == (SbcCapability {
                sampling_freq: 0xFF,
                channel_mode: 0x0F,
                block_length: 0x0F,
                subbands: 0x03,
                allocation_method: 0x03,
                min_bitpool: 2,
                max_bitpool: 250,
            }),
    {
        SbcCapability {
            sampling_freq: 0xFF,
            channel_mode: 0x0F,
            block_length: 0x0F,
            subbands: 0x03,
            allocation_method: 0x03,
            min_bitpool: 2,
            max_bitpool: 250,
        }
    }

    /// A typical high-quality configuration: 44.1 kHz, joint stereo, 16
    /// blocks, 8 subbands, loudness allocation, bitpool 35 to 53.
    pub fn high_quality() -> (r: Self)
        ensures
            r == (SbcCapability {
                sampling_freq: 0x20,
                channel_mode: 0x01,
                block_length: 0x01,
                subbands: 0x01,
                allocation_method: 0x01,
                min_bitpool: 35,
                max_bitpool: 53,
            }),
    {
        SbcCapability {
            sampling_freq: 0x20,
            channel_mode: 0x01,
            block_length: 0x01,
            subbands: 0x01,
            allocation_method: 0x01,
            min_bitpool: 35,
            max_bitpool: 53,
        }
    }

    /// The four bytes of the capability on the wire.
    pub open spec fn wire(&self) -> Seq<u8> {
        seq![
            (self.sampling_freq << 4) | self.channel_mode,
            (self.block_length << 4) | (self.subbands << 2) | self.allocation_method,
            self.min_bitpool,
            self.max_bitpool,
        ]
    }

    /// Serialize to bytes. Returns 4, the number of bytes written; `buf`
    /// must hold at least that many.
    pub fn to_bytes(&self, buf: &mut [u8]) -> (n: usize)
        requires
            old(buf).len() >= 4,
        ensures
            n == 4,
            final(buf).len() == old(buf).len(),
            final(buf)@.subrange(0, 4) == self.wire(),
            final(buf)@.subrange(4, old(buf).len() as int) == old(buf)@.subrange(
                4,
                old(buf).len() as int,
            ),
    {
        buf[0] = (self.sampling_freq << 4) | self.channel_mode;
        buf[1] = (self.block_length << 4) | (self.subbands << 2) | self.allocation_method;
        buf[2] = self.min_bitpool;
        buf[3] = self.max_bitpool;
        assert(buf@.subrange(0, 4) =~= self.wire());
        assert(buf@.subrange(4, buf.len() as int) =~= old(buf)@.subrange(4, buf.len() as int));
        4
    }

    /// Parse from bytes: `None` where fewer than 4 are given, else the
    /// fields of the first four.
    pub fn from_bytes(bytes: &[u8]) -> (r: Option<Self>)
        ensures
            r == (if bytes.len() < 4 {
                None
            } else {
                Some(
                    SbcCapability {
                        sampling_freq: bytes[0] >> 4,
                        channel_mode: bytes[0] & 0x0F,
                        block_length: bytes[1] >> 4,
                        subbands: (bytes[1] >> 2) & 0x03,
                        allocation_method: bytes[1] & 0x03,
                        min_bitpool: bytes[2],
                        max_bitpool: bytes[3],
                    },
                )
            }),
    {
        if bytes.len() < 4 {
            return None;
        }
        Some(
            SbcCapability {
                sampling_freq: bytes[0] >> 4,
                channel_mode: bytes[0] & 0x0F,
                block_length: bytes[1] >> 4,
                subbands: (bytes[1] >> 2) & 0x03,
                allocation_method: bytes[1] & 0x03,
                min_bitpool: bytes[2],
                max_bitpool: bytes[3],
            },
        )
    }

    /// Whether every bitmap fits its field on the wire: four bits for the
    /// frequencies, channel modes and block lengths, two for the subbands
    /// and allocation methods.
    pub open spec fn fits_wire(&self) -> bool {
        &&& self.sampling_freq < 16
        &&& self.channel_mode < 16
        &&& self.block_length < 16
        &&& self.subbands < 4
        &&& self.allocation_method < 4
    }

    /// A capability that fits the wire format is read back from its bytes
    /// as it was written.
    pub proof fn wire_round_trip(&self)
        requires
            self.fits_wire(),
        ensures
            (self.wire()[0] >> 4) == self.sampling_freq,
            (self.wire()[0] & 0x0F) == self.channel_mode,
            (self.wire()[1] >> 4) == self.block_length,
            ((self.wire()[1] >> 2) & 0x03) == self.subbands,
            (self.wire()[1] & 0x03) == self.allocation_method,
            self.wire()[2] == self.min_bitpool,
            self.wire()[3] == self.max_bitpool,
    {
        let f = self.sampling_freq;
        let c = self.channel_mode;
        let b = self.block_length;
        let s = self.subbands;
        let a = self.allocation_method;
        assert(f < 16 && c < 16 ==> (((f << 4) | c) >> 4) == f && (((f << 4) | c) & 0x0F) == c)
            by (bit_vector);
        assert(b < 16 && s < 4 && a < 4 ==> ((((b << 4) | (s << 2) | a) >> 4) == b && ((((b << 4)
            | (s << 2) | a) >> 2) & 0x03) == s && (((b << 4) | (s << 2) | a) & 0x03) == a))
            by (bit_vector);
    }
}

/// Stream Endpoint (SEP).
#[derive(Debug, Clone)]
pub struct StreamEndpoint {
    /// Stream Endpoint ID (1-62)
    pub seid: u8,
    /// Whether the SEP is in use
    pub in_use: bool,
    /// Media type
    pub media_type: MediaType,
    /// SEP type (Source or Sink)
    pub sep_type: SepType,
    /// SBC codec capability
    pub sbc_capability: SbcCapability,
}

impl StreamEndpoint {
    /// Create a new A2DP Source endpoint: an audio source, not in use, with
    /// every SBC option supported.
    pub fn new_source(seid: u8) -> (r: Self)
        ensures
            r.seid == seid,
            !r.in_use,
            r.media_type == MediaType::Audio,
            r.sep_type == SepType::Source,
            r.sbc_capability == (SbcCapability {
                sampling_freq: 0xFF,
                channel_mode: 0x0F,
                block_length: 0x0F,
                subbands: 0x03,
                allocation_method: 0x03,
                min_bitpool: 2,
                max_bitpool: 250,
            }),
    {
        StreamEndpoint {
            seid,
            in_use: false,
            media_type: MediaType::Audio,
            sep_type: SepType::Source,
            sbc_capability: SbcCapability::all(),
        }
    }
}

/// AVDTP media packet header (RTP-like).
#[derive(Debug, Clone, Copy, PartialEq, Eq, Structural)]
pub struct MediaHeader {
    /// RTP version (always 2)
    pub version: u8,
    /// Padding flag
    pub padding: bool,
    /// Extension flag
    pub extension: bool,
    /// CSRC count
    pub cc: u8,
    /// Marker bit
    pub marker: bool,
    /// Payload type
    pub payload_type: u8,
    /// Sequence number
    pub sequence: u16,
    /// Timestamp
    pub timestamp: u32,
    /// Synchronization source
    pub ssrc: u32,
}

impl Default for MediaHeader {
    fn default() -> (r: Self)
        ensures
            r == (MediaHeader {
                version: 0,
                padding: false,
                extension: false,
                cc: 0,
                marker: false,
                payload_type: 0,
                sequence: 0,
                timestamp: 0,
                ssrc: 0,
            }),
    {
        MediaHeader {
            version: 0,
            padding: false,
            extension: false,
            cc: 0,
            marker: false,
            payload_type: 0,
            sequence: 0,
            timestamp: 0,
            ssrc: 0,
        }
    }
}

/// A flag as a bit.
pub open spec fn flag(b: bool) -> u8 {
    if b {
        1
    } else {
        0
    }
}

impl MediaHeader {
    /// Create a new media header: version 2, the dynamic payload type 96
    /// used for SBC, everything else zero.
    pub fn new() -> (r: Self)
        ensures
            r == (MediaHeader {
                version: 2,
                padding: false,
                extension: false,
                cc: 0,
                marker: false,
                payload_type: 96,
                sequence: 0,
                timestamp: 0,
                ssrc: 0,
            }),
    {
        MediaHeader {
            version: 2,
            padding: false,
            extension: false,
            cc: 0,
            marker: false,
            payload_type: 96,
            sequence: 0,
            timestamp: 0,
            ssrc: 0,
        }
    }

    /// The twelve bytes of the header on the wire: the version, flags and
    /// CSRC count, the marker and payload type, then sequence number,
    /// timestamp and source, each big-endian.
    pub open spec fn wire(&self) -> Seq<u8> {
        seq![
            (self.version << 6) | (flag(self.padding) << 5) | (flag(self.extension) << 4) | self.cc,
            (flag(self.marker) << 7) | (self.payload_type & 0x7F),
            (self.sequence / 256) as u8,
            (self.sequence % 256) as u8,
            (self.timestamp / 0x100_0000) as u8,
            ((self.timestamp / 0x1_0000) % 256) as u8,
            ((self.timestamp / 0x100) % 256) as u8,
            (self.timestamp % 256) as u8,
            (self.ssrc / 0x100_0000) as u8,
            ((self.ssrc / 0x1_0000) % 256) as u8,
            ((self.ssrc / 0x100) % 256) as u8,
            (self.ssrc % 256) as u8,
        ]
    }

    /// Serialize to bytes. Returns 12, the number of bytes written; `buf`
    /// must hold at least that many.
    pub fn to_bytes(&self, buf: &mut [u8]) -> (n: usize)
        requires
            old(buf).len() >= 12,
        ensures
            n == 12,
            final(buf).len() == old(buf).len(),
            final(buf)@.subrange(0, 12) == self.wire(),
            final(buf)@.subrange(12, old(buf).len() as int) == old(buf)@.subrange(
                12,
                old(buf).len() as int,
            ),
    {
        let padding: u8 = if self.padding {
            1
        } else {
            0
        };
        let extension: u8 = if self.extension {
            1
        } else {
            0
        };
        let marker: u8 = if self.marker {
            1
        } else {
            0
        };
        buf[0] = (self.version << 6) | (padding << 5) | (extension << 4) | self.cc;
        buf[1] = (marker << 7) | (self.payload_type & 0x7F);
        buf[2] = (self.sequence / 256) as u8;
        buf[3] = (self.sequence % 256) as u8;
        buf[4] = (self.timestamp / 0x100_0000) as u8;
        buf[5] = ((self.timestamp / 0x1_0000) % 256) as u8;
        buf[6] = ((self.timestamp / 0x100) % 256) as u8;
        buf[7] = (self.timestamp % 256) as u8;
        buf[8] = (self.ssrc / 0x100_0000) as u8;
        buf[9] = ((self.ssrc / 0x1_0000) % 256) as u8;
        buf[10] = ((self.ssrc / 0x100) % 256) as u8;
        buf[11] = (self.ssrc % 256) as u8;
        assert(buf@.subrange(0, 12) =~= self.wire());
        assert(buf@.subrange(12, buf.len() as int) =~= old(buf)@.subrange(12, buf.len() as int));
        12
    }
}

/// AVDTP session state.
#[derive(Debug, Clone, Copy, PartialEq, Eq, Structural)]
pub enum SessionState {
    Idle,
    Discovering,
    Configuring,
    Open,
    Streaming,
    Closing,
    Aborting,
}

impl Default for SessionState {
    fn default() -> (r: Self)
        ensures
            r == SessionState::Idle,
    {
        SessionState::Idle
    }
}

} // verus!
