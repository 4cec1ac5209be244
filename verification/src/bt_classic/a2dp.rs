//! A2DP (Advanced Audio Distribution Profile): the source side of a
//! stream.

use vstd::prelude::*;
use crate::bt_classic::BdAddr;
use crate::bt_classic::avdtp::{MediaType, SbcCapability, SepType, SessionState, StreamEndpoint};

verus! {

/// A2DP connection state.
#[derive(Debug, Clone, Copy, PartialEq, Eq, Structural)]
pub enum A2dpState {
    /// Not connected
    Disconnected,
    /// Discoverable, waiting for connection
    Discoverable,
    /// ACL connection in progress
    Connecting,
    /// ACL connected, setting up L2CAP
    Connected,
    /// AVDTP configuration in progress
    Configuring,
    /// Stream open, ready to stream
    Open,
    /// Actively streaming audio
    Streaming,
    /// Stream suspended
    Suspended,
    /// Disconnecting
    Disconnecting,
}

impl Default for A2dpState {
    fn default() -> (r: Self)
        ensures
            r == A2dpState::Disconnected,
    {
        A2dpState::Disconnected
    }
}

/// Negotiated SBC configuration.
#[derive(Debug, Clone, Copy, PartialEq, Eq, Structural)]
pub struct NegotiatedConfig {
    /// Sampling frequency in Hz
    pub sample_rate: u32,
    /// Number of channels
    pub channels: u8,
    /// Block length
    pub blocks: u8,
    /// Number of subbands
    pub subbands: u8,
    /// Bitpool value
    pub bitpool: u8,
    /// Joint stereo enabled
    pub joint_stereo: bool,
    /// Loudness allocation
    pub loudness: bool,
}

impl Default for NegotiatedConfig {
    fn default() -> (r: Self)
        ensures
            r == (NegotiatedConfig {
                sample_rate: 0,
                channels: 0,
                blocks: 0,
                subbands: 0,
                bitpool: 0,
                joint_stereo: false,
                loudness: false,
            }),
    {
        NegotiatedConfig {
            sample_rate: 0,
            channels: 0,
            blocks: 0,
            subbands: 0,
            bitpool: 0,
            joint_stereo: false,
            loudness: false,
        }
    }
}

/// Whether a bitmap has any bit of the mask set.
pub open spec fn has(bitmap: u8, mask: u8) -> bool {
    bitmap & mask != 0
}

/// The best option each bitmap of a capability offers: the highest
/// sampling rate, two channels unless only mono is offered, the most
/// blocks, 8 subbands and loudness allocation where offered, and the
/// capability's top bitpool up to 53.
pub open spec fn best_of(cap: SbcCapability) -> NegotiatedConfig {
    NegotiatedConfig {
        sample_rate: if has(cap.sampling_freq, 0x10) {
            48000
        } else if has(cap.sampling_freq, 0x20) {
            44100
        } else if has(cap.sampling_freq, 0x40) {
            32000
        } else {
            16000
        },
        channels: if has(cap.channel_mode, 0x01) || has(cap.channel_mode, 0x02) || has(
            cap.channel_mode,
            0x04,
        ) {
            2
        } else {
            1
        },
        blocks: if has(cap.block_length, 0x01) {
            16
        } else if has(cap.block_length, 0x02) {
            12
        } else if has(cap.block_length, 0x04) {
            8
        } else {
            4
        },
        subbands: if has(cap.subbands, 0x01) {
            8
        } else {
            4
        },
        bitpool: if cap.max_bitpool <= 53 {
            cap.max_bitpool
        } else {
            53
        },
        joint_stereo: has(cap.channel_mode, 0x01),
        loudness: has(cap.allocation_method, 0x01),
    }
}

impl NegotiatedConfig {
    /// Create from SBC capability (selecting best options).
    pub fn from_capability(cap: &SbcCapability) -> (r: Self)
        ensures
            r == best_of(*cap),
    {
        let sample_rate: u32 = if cap.sampling_freq & 0x10 != 0 {
            48000
        } else if cap.sampling_freq & 0x20 != 0 {
            44100
        } else if cap.sampling_freq & 0x40 != 0 {
            32000
        } else {
            16000
        };

        let channels: u8 = if cap.channel_mode & 0x01 != 0 {
            2
        } else if cap.channel_mode & 0x02 != 0 {
            2
        } else if cap.channel_mode & 0x04 != 0 {
            2
        } else {
            1
        };

        let joint_stereo: bool = cap.channel_mode & 0x01 != 0;

        let blocks: u8 = if cap.block_length & 0x01 != 0 {
            16
        } else if cap.block_length & 0x02 != 0 {
            12
        } else if cap.block_length & 0x04 != 0 {
            8
        } else {
            4
        };

        let subbands: u8 = if cap.subbands & 0x01 != 0 {
            8
        } else {
            4
        };

        let loudness: bool = cap.allocation_method & 0x01 != 0;

        let bitpool: u8 = if cap.max_bitpool <= 53 {
            cap.max_bitpool
        } else {
            53
        };

        NegotiatedConfig { sample_rate, channels, blocks, subbands, bitpool, joint_stereo, loudness }
    }

    /// Calculate frame duration in microseconds: the samples of a frame
    /// (blocks times subbands) over the sample rate. The sample rate must
    /// not be zero, and the samples times a million must fit in 32 bits.
    pub fn frame_duration_us(&self) -> (r: u32)
        requires
            self.sample_rate > 0,
            self.blocks * self.subbands * 1_000_000 <= u32::MAX,
        ensures
            r == (self.blocks * self.subbands * 1_000_000) / (self.sample_rate as int),
    {
        assert(self.blocks * self.subbands <= 255 * 255) by (nonlinear_arith)
            requires
                self.blocks <= 255,
                self.subbands <= 255,
        ;
        let samples: u32 = (self.blocks as u32) * (self.subbands as u32);
        (samples * 1_000_000) / self.sample_rate
    }
}

/// A2DP Source context.
pub struct A2dpSource {
    /// Current state
    pub state: A2dpState,
    /// Remote device address
    pub remote_addr: Option<BdAddr>,
    /// Local stream endpoint
    pub local_sep: StreamEndpoint,
    /// Remote SEID
    pub remote_seid: Option<u8>,
    /// Negotiated configuration
    pub config: Option<NegotiatedConfig>,
    /// AVDTP session state
    pub avdtp_state: SessionState,
    /// Media sequence number
    pub sequence: u16,
    /// Media timestamp
    pub timestamp: u32,
}

impl A2dpSource {
    /// Whether nothing of a connection is left: disconnected and idle, no
    /// remote end, no configuration, sequence number and timestamp at zero.
    pub open spec fn is_blank(&self) -> bool {
        &&& self.state == A2dpState::Disconnected
        &&& self.remote_addr is None
        &&& self.remote_seid is None
        &&& self.config is None
        &&& self.avdtp_state == SessionState::Idle
        &&& self.sequence == 0
        &&& self.timestamp == 0
    }

    /// Create a new A2DP Source: blank, with source endpoint 1.
    pub fn new() -> (r: Self)
        ensures
            r.is_blank(),
            r.local_sep.seid == 1,
            !r.local_sep.in_use,
            r.local_sep.media_type == MediaType::Audio,
            r.local_sep.sep_type == SepType::Source,
    {
        A2dpSource {
            state: A2dpState::Disconnected,
            remote_addr: None,
            local_sep: StreamEndpoint::new_source(1),
            remote_seid: None,
            config: None,
            avdtp_state: SessionState::Idle,
            sequence: 0,
            timestamp: 0,
        }
    }

    /// Check if ready to stream.
    pub fn is_streaming(&self) -> (r: bool)
        ensures
            r == (self.state == A2dpState::Streaming),
    {
        self.state == A2dpState::Streaming
    }

    /// Check if connected: any state from `Connected` to `Suspended`.
    pub fn is_connected(&self) -> (r: bool)
        ensures
            r == (self.state == A2dpState::Connected || self.state == A2dpState::Configuring
                || self.state == A2dpState::Open || self.state == A2dpState::Streaming
                || self.state == A2dpState::Suspended),
    {
        match self.state {
            A2dpState::Connected
            | A2dpState::Configuring
            | A2dpState::Open
            | A2dpState::Streaming
            | A2dpState::Suspended => true,
            _ => false,
        }
    }

    /// Get next sequence number: returns the current one and moves on by
    /// one, wrapping from 0xFFFF to 0.
    pub fn next_sequence(&mut self) -> (seq: u16)
        ensures
            seq == old(self).sequence,
            final(self).sequence == (old(self).sequence + 1) % 0x1_0000,
            final(self).state == old(self).state,
            final(self).remote_addr == old(self).remote_addr,
            final(self).local_sep == old(self).local_sep,
            final(self).remote_seid == old(self).remote_seid,
            final(self).config == old(self).config,
            final(self).avdtp_state == old(self).avdtp_state,
            final(self).timestamp == old(self).timestamp,
    {
        let seq: u16 = self.sequence;
        self.sequence = if self.sequence == 0xFFFF {
            0
        } else {
            self.sequence + 1
        };
        seq
    }

    /// Advance timestamp by samples, wrapping at 2^32.
    pub fn advance_timestamp(&mut self, samples: u32)
        ensures
            final(self).timestamp == (old(self).timestamp + samples) % 0x1_0000_0000,
            final(self).state == old(self).state,
            final(self).remote_addr == old(self).remote_addr,
            final(self).local_sep == old(self).local_sep,
            final(self).remote_seid == old(self).remote_seid,
            final(self).config == old(self).config,
            final(self).avdtp_state == old(self).avdtp_state,
            final(self).sequence == old(self).sequence,
    {
        let sum: u64 = self.timestamp as u64 + samples as u64;
        self.timestamp = (sum % 0x1_0000_0000) as u32;
    }

    /// Reset for new connection: blank again, the local endpoint kept.
    pub fn reset(&mut self)
        ensures
            final(self).is_blank(),
            final(self).local_sep == old(self).local_sep,
    {
        self.state = A2dpState::Disconnected;
        self.remote_addr = None;
        self.remote_seid = None;
        self.config = None;
        self.avdtp_state = SessionState::Idle;
        self.sequence = 0;
        self.timestamp = 0;
    }
}

impl Default for A2dpSource {
    fn default() -> (r: Self)
        ensures
            r.is_blank(),
    {
        A2dpSource::new()
    }
}

} // verus!
