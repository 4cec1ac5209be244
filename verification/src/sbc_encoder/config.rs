//! SBC frame geometry: the negotiated parameters of a stream and the sizes
//! that follow from them.

use vstd::prelude::*;

verus! {

/// Sampling frequency options.
#[derive(Debug, Clone, Copy, PartialEq, Eq, Structural)]
pub enum SamplingFrequency {
    /// 16 kHz
    Freq16000,
    /// 32 kHz
    Freq32000,
    /// 44.1 kHz (CD quality)
    Freq44100,
    /// 48 kHz
    Freq48000,
}

impl SamplingFrequency {
    pub open spec fn spec_hz(self) -> u32 {
        match self {
            Self::Freq16000 => 16000,
            Self::Freq32000 => 32000,
            Self::Freq44100 => 44100,
            Self::Freq48000 => 48000,
        }
    }

    /// The frequency in Hz.
    #[verifier::when_used_as_spec(spec_hz)]
    pub fn hz(self) -> (r: u32)
        ensures
            r == self.spec_hz(),
    {
        match self {
            Self::Freq16000 => 16000,
            Self::Freq32000 => 32000,
            Self::Freq44100 => 44100,
            Self::Freq48000 => 48000,
        }
    }

    pub open spec fn spec_header_bits(self) -> u8 {
        match self {
            Self::Freq16000 => 0,
            Self::Freq32000 => 1,
            Self::Freq44100 => 2,
            Self::Freq48000 => 3,
        }
    }

    /// The 2-bit field value for the frame header.
    #[verifier::when_used_as_spec(spec_header_bits)]
    pub fn header_bits(self) -> (r: u8)
        ensures
            r == self.spec_header_bits(),
            r < 4,
    {
        match self {
            Self::Freq16000 => 0,
            Self::Freq32000 => 1,
            Self::Freq44100 => 2,
            Self::Freq48000 => 3,
        }
    }
}

impl Default for SamplingFrequency {
    fn default() -> (r: Self)
        ensures
            r == SamplingFrequency::Freq44100,
    {
        SamplingFrequency::Freq44100
    }
}

/// Channel mode options.
#[derive(Debug, Clone, Copy, PartialEq, Eq, Structural)]
pub enum ChannelMode {
    /// Mono (1 channel)
    Mono,
    /// Dual Channel (2 independent mono channels)
    DualChannel,
    /// Stereo (2 channels)
    Stereo,
    /// Joint Stereo (2 channels with mid/side coding)
    JointStereo,
}

impl ChannelMode {
    pub open spec fn spec_channels(self) -> u8 {
        match self {
            Self::Mono => 1,
            _ => 2,
        }
    }

    /// Number of audio channels.
    #[verifier::when_used_as_spec(spec_channels)]
    pub fn channels(self) -> (r: u8)
        ensures
            r == self.spec_channels(),
            r == 1 || r == 2,
    {
        match self {
            Self::Mono => 1,
            Self::DualChannel | Self::Stereo | Self::JointStereo => 2,
        }
    }

    pub open spec fn spec_header_bits(self) -> u8 {
        match self {
            Self::Mono => 0,
            Self::DualChannel => 1,
            Self::Stereo => 2,
            Self::JointStereo => 3,
        }
    }

    /// The 2-bit field value for the frame header.
    #[verifier::when_used_as_spec(spec_header_bits)]
    pub fn header_bits(self) -> (r: u8)
        ensures
            r == self.spec_header_bits(),
            r < 4,
    {
        match self {
            Self::Mono => 0,
            Self::DualChannel => 1,
            Self::Stereo => 2,
            Self::JointStereo => 3,
        }
    }
}

impl Default for ChannelMode {
    fn default() -> (r: Self)
        ensures
            r == ChannelMode::JointStereo,
    {
        ChannelMode::JointStereo
    }
}

/// Block length options (number of blocks per frame).
#[derive(Debug, Clone, Copy, PartialEq, Eq, Structural)]
pub enum BlockLength {
    /// 4 blocks
    Blocks4,
    /// 8 blocks
    Blocks8,
    /// 12 blocks
    Blocks12,
    /// 16 blocks (best quality)
    Blocks16,
}

impl BlockLength {
    pub open spec fn spec_count(self) -> usize {
        match self {
            Self::Blocks4 => 4,
            Self::Blocks8 => 8,
            Self::Blocks12 => 12,
            Self::Blocks16 => 16,
        }
    }

    /// The number of blocks.
    #[verifier::when_used_as_spec(spec_count)]
    pub fn count(self) -> (r: usize)
        ensures
            r == self.spec_count(),
            4 <= r <= 16,
    {
        match self {
            Self::Blocks4 => 4,
            Self::Blocks8 => 8,
            Self::Blocks12 => 12,
            Self::Blocks16 => 16,
        }
    }

    pub open spec fn spec_header_bits(self) -> u8 {
        match self {
            Self::Blocks4 => 0,
            Self::Blocks8 => 1,
            Self::Blocks12 => 2,
            Self::Blocks16 => 3,
        }
    }

    /// The 2-bit field value for the frame header.
    #[verifier::when_used_as_spec(spec_header_bits)]
    pub fn header_bits(self) -> (r: u8)
        ensures
            r == self.spec_header_bits(),
            r < 4,
    {
        match self {
            Self::Blocks4 => 0,
            Self::Blocks8 => 1,
            Self::Blocks12 => 2,
            Self::Blocks16 => 3,
        }
    }
}

impl Default for BlockLength {
    fn default() -> (r: Self)
        ensures
            r == BlockLength::Blocks16,
    {
        BlockLength::Blocks16
    }
}

/// Number of subbands.
#[derive(Debug, Clone, Copy, PartialEq, Eq, Structural)]
pub enum Subbands {
    /// 4 subbands
    Sub4,
    /// 8 subbands (better frequency resolution)
    Sub8,
}

impl Subbands {
    pub open spec fn spec_count(self) -> usize {
        match self {
            Self::Sub4 => 4,
            Self::Sub8 => 8,
        }
    }

    /// The number of subbands.
    #[verifier::when_used_as_spec(spec_count)]
    pub fn count(self) -> (r: usize)
        ensures
            r == self.spec_count(),
            r == 4 || r == 8,
    {
        match self {
            Self::Sub4 => 4,
            Self::Sub8 => 8,
        }
    }

    pub open spec fn spec_header_bits(self) -> u8 {
        match self {
            Self::Sub4 => 0,
            Self::Sub8 => 1,
        }
    }

    /// The 1-bit field value for the frame header.
    #[verifier::when_used_as_spec(spec_header_bits)]
    pub fn header_bits(self) -> (r: u8)
        ensures
            r == self.spec_header_bits(),
            r < 2,
    {
        match self {
            Self::Sub4 => 0,
            Self::Sub8 => 1,
        }
    }
}

impl Default for Subbands {
    fn default() -> (r: Self)
        ensures
            r == Subbands::Sub8,
    {
        Subbands::Sub8
    }
}

/// Bit allocation method.
#[derive(Debug, Clone, Copy, PartialEq, Eq, Structural)]
pub enum AllocationMethod {
    /// SNR-based allocation
    Snr,
    /// Loudness-based allocation (psychoacoustic)
    Loudness,
}

impl AllocationMethod {
    pub open spec fn spec_header_bits(self) -> u8 {
        match self {
            Self::Snr => 0,
            Self::Loudness => 1,
        }
    }

    /// The 1-bit field value for the frame header.
    #[verifier::when_used_as_spec(spec_header_bits)]
    pub fn header_bits(self) -> (r: u8)
        ensures
            r == self.spec_header_bits(),
            r < 2,
    {
        match self {
            Self::Snr => 0,
            Self::Loudness => 1,
        }
    }
}

impl Default for AllocationMethod {
    fn default() -> (r: Self)
        ensures
            r == AllocationMethod::Loudness,
    {
        AllocationMethod::Loudness
    }
}

/// SBC encoder configuration.
#[derive(Debug, Clone, Copy, PartialEq, Eq, Structural)]
pub struct SbcConfig {
    /// Sampling frequency
    pub sampling_frequency: SamplingFrequency,
    /// Channel mode
    pub channel_mode: ChannelMode,
    /// Number of blocks per frame
    pub block_length: BlockLength,
    /// Number of subbands
    pub subbands: Subbands,
    /// Bit allocation method
    pub allocation_method: AllocationMethod,
    /// Bitpool value (controls quality/bitrate, 2-250)
    pub bitpool: u8,
}

impl Default for SbcConfig {
    /// 44.1 kHz joint stereo, 16 blocks of 8 subbands, loudness allocation,
    /// bitpool 53.
    fn default() -> (r: Self)
        ensures
            r == (SbcConfig {
                sampling_frequency: SamplingFrequency::Freq44100,
                channel_mode: ChannelMode::JointStereo,
                block_length: BlockLength::Blocks16,
                subbands: Subbands::Sub8,
                allocation_method: AllocationMethod::Loudness,
                bitpool: 53,
            }),
            r.spec_is_valid(),
    {
        SbcConfig {
            sampling_frequency: SamplingFrequency::Freq44100,
            channel_mode: ChannelMode::JointStereo,
            block_length: BlockLength::Blocks16,
            subbands: Subbands::Sub8,
            allocation_method: AllocationMethod::Loudness,
            bitpool: 53,
        }
    }
}

impl SbcConfig {
    /// Create a configuration from its six fields. No validation happens
    /// here; see [`SbcConfig::is_valid`].
    pub fn new(
        sampling_frequency: SamplingFrequency,
        channel_mode: ChannelMode,
        block_length: BlockLength,
        subbands: Subbands,
        allocation_method: AllocationMethod,
        bitpool: u8,
    ) -> (r: Self)
        ensures
            r == (SbcConfig {
                sampling_frequency,
                channel_mode,
                block_length,
                subbands,
                allocation_method,
                bitpool,
            }),
    {
        SbcConfig {
            sampling_frequency,
            channel_mode,
            block_length,
            subbands,
            allocation_method,
            bitpool,
        }
    }

    /// The largest bitpool the mode and subband count allow: 16 per subband
    /// for the one-channel-at-a-time modes, 32 per subband for the stereo
    /// modes, and never more than 250.
    pub open spec fn spec_max_bitpool(&self) -> u8 {
        let per_subband: int = match self.channel_mode {
            ChannelMode::Mono | ChannelMode::DualChannel => 16,
            ChannelMode::Stereo | ChannelMode::JointStereo => 32,
        };
        let computed = per_subband * self.subbands.spec_count();
        if computed > 250 {
            250
        } else {
            computed as u8
        }
    }

    /// Maximum allowed bitpool for this configuration.
    #[verifier::when_used_as_spec(spec_max_bitpool)]
    pub fn max_bitpool(&self) -> (r: u8)
        ensures
            r == self.spec_max_bitpool(),
            64 <= r <= 250,
    {
        let subbands: u16 = self.subbands.count() as u16;
        match self.channel_mode {
            ChannelMode::Mono | ChannelMode::DualChannel => {
                let computed: u16 = 16 * subbands;
                if computed > 250 {
                    250
                } else {
                    computed as u8
                }
            },
            ChannelMode::Stereo | ChannelMode::JointStereo => {
                let computed: u16 = 32 * subbands;
                if computed > 250 {
                    250
                } else {
                    computed as u8
                }
            },
        }
    }

    /// A configuration is valid when its bitpool is at least 2 and at most
    /// the maximum for its mode and subband count.
    pub open spec fn spec_is_valid(&self) -> bool {
        2 <= self.bitpool <= self.spec_max_bitpool()
    }

    /// Check if the configuration is valid.
    #[verifier::when_used_as_spec(spec_is_valid)]
    pub fn is_valid(&self) -> (r: bool)
        ensures
            r == self.spec_is_valid(),
    {
        if self.bitpool < 2 {
            return false;
        }
        let max_bitpool: u8 = self.max_bitpool();
        if self.bitpool > max_bitpool {
            return false;
        }
        true
    }

    pub open spec fn spec_channels(&self) -> u8 {
        self.channel_mode.spec_channels()
    }

    /// Number of channels.
    #[verifier::when_used_as_spec(spec_channels)]
    pub fn channels(&self) -> (r: u8)
        ensures
            r == self.spec_channels(),
            r == 1 || r == 2,
    {
        self.channel_mode.channels()
    }

    pub open spec fn spec_samples_per_frame(&self) -> usize {
        (self.block_length.spec_count() * self.subbands.spec_count()) as usize
    }

    /// Number of samples per frame per channel: blocks times subbands.
    #[verifier::when_used_as_spec(spec_samples_per_frame)]
    pub fn samples_per_frame(&self) -> (r: usize)
        ensures
            r == self.spec_samples_per_frame(),
            r == self.block_length.spec_count() * self.subbands.spec_count(),
            16 <= r <= 128,
    {
        self.block_length.count() * self.subbands.count()
    }

    /// Bytes taken by the join flags and scale factors in the nominal frame
    /// size.
    pub open spec fn scale_factor_bytes(&self) -> int {
        let subbands = self.subbands.spec_count() as int;
        match self.channel_mode {
            ChannelMode::JointStereo => (subbands + 2 * subbands * 4) / 8 + 1,
            _ => (self.spec_channels() * subbands * 4) / 8,
        }
    }

    /// Audio payload bits in the nominal frame size. The one-channel-at-a-time
    /// modes spend the bitpool once per channel, the stereo modes once per
    /// block.
    pub open spec fn audio_bits(&self) -> int {
        let blocks = self.block_length.spec_count() as int;
        match self.channel_mode {
            ChannelMode::Mono | ChannelMode::DualChannel => self.spec_channels() * blocks
                * self.bitpool,
            ChannelMode::Stereo | ChannelMode::JointStereo => blocks * self.bitpool,
        }
    }

    /// Nominal frame size: a 4-byte header, the scale-factor bytes, and the
    /// audio bits rounded up to whole bytes.
    pub open spec fn spec_frame_size(&self) -> usize {
        (4 + self.scale_factor_bytes() + (self.audio_bits() + 7) / 8) as usize
    }

    /// Calculate the frame size in bytes.
    #[verifier::when_used_as_spec(spec_frame_size)]
    pub fn frame_size(&self) -> (r: usize)
        ensures
            r == self.spec_frame_size(),
            r == 4 + self.scale_factor_bytes() + (self.audio_bits() + 7) / 8,
            6 <= r <= 1034,
    {
        let subbands: usize = self.subbands.count();
        let blocks: usize = self.block_length.count();
        let channels: usize = self.channels() as usize;
        let bitpool: usize = self.bitpool as usize;

        let header: usize = 4;

        let scale_factors: usize = match self.channel_mode {
            ChannelMode::JointStereo => (subbands + 2 * subbands * 4) / 8 + 1,
            _ => (channels * subbands * 4) / 8,
        };

        assert(blocks * bitpool <= 16 * 255) by (nonlinear_arith)
            requires
                blocks <= 16,
                bitpool <= 255,
        ;
        let audio_bits: usize = match self.channel_mode {
            ChannelMode::Mono | ChannelMode::DualChannel => {
                assert(channels * blocks * bitpool == channels * (blocks * bitpool))
                    by (nonlinear_arith);
                channels * blocks * bitpool
            },
            ChannelMode::Stereo => blocks * bitpool,
            ChannelMode::JointStereo => blocks * bitpool,
        };
        let audio: usize = (audio_bits + 7) / 8;

        header + scale_factors + audio
    }

    pub open spec fn spec_bitrate_kbps(&self) -> u32 {
        ((self.spec_frame_size() * 8 * self.sampling_frequency.spec_hz())
            / self.spec_samples_per_frame() as int / 1000) as u32
    }

    /// Approximate bitrate in kbps: frame bits times the sampling rate, per
    /// sample of a frame, per thousand.
    #[verifier::when_used_as_spec(spec_bitrate_kbps)]
    pub fn bitrate_kbps(&self) -> (r: u32)
        ensures
            r == self.spec_bitrate_kbps(),
            r == (self.spec_frame_size() * 8 * self.sampling_frequency.spec_hz())
                / self.spec_samples_per_frame() as int / 1000,
    {
        let frame_size: u32 = self.frame_size() as u32;
        let samples: u32 = self.samples_per_frame() as u32;
        let sample_rate: u32 = self.sampling_frequency.hz();

        assert(frame_size * 8 * sample_rate <= 1034 * 8 * 48000) by (nonlinear_arith)
            requires
                frame_size <= 1034,
                sample_rate <= 48000,
        ;
        (frame_size * 8 * sample_rate) / samples / 1000
    }

    /// Whether the nominal frame size of a valid configuration is larger
    /// than the frame-size limit. That happens only with 16 blocks of 8
    /// subbands at the top of the bitpool range: dual channel from bitpool
    /// 126, joint stereo at bitpool 250.
    pub open spec fn oversized(&self) -> bool {
        self.block_length == BlockLength::Blocks16 && self.subbands == Subbands::Sub8 && (
            (self.channel_mode == ChannelMode::DualChannel && self.bitpool >= 126)
            || (self.channel_mode == ChannelMode::JointStereo && self.bitpool >= 250))
    }

    /// The nominal frame size of every valid configuration is positive, and
    /// it is within the frame-size limit exactly when the configuration is
    /// not `oversized`.
    pub proof fn frame_size_within_limit(&self)
        requires
            self.spec_is_valid(),
        ensures
            self.spec_frame_size() > 0,
            !self.oversized() <==> self.spec_frame_size() <= crate::sbc_encoder::MAX_SBC_FRAME_SIZE,
    {
        let blocks = self.block_length.spec_count() as int;
        let bitpool = self.bitpool as int;
        let channels = self.spec_channels() as int;
        assert(0 <= blocks * bitpool <= 16 * bitpool && (blocks == 16 ==> blocks * bitpool == 16
            * bitpool) && (blocks <= 12 ==> blocks * bitpool <= 12 * bitpool)) by (nonlinear_arith)
            requires
                4 <= blocks <= 16,
                0 <= bitpool,
        ;
        assert(channels * blocks * bitpool == channels * (blocks * bitpool)) by (nonlinear_arith);
        assert(channels == 2 ==> channels * (blocks * bitpool) == 2 * (blocks * bitpool));
        assert(channels == 1 ==> channels * (blocks * bitpool) == blocks * bitpool);
        assert(0 <= self.audio_bits() <= 32 * 255);
        assert(2 <= self.scale_factor_bytes() <= 10);
    }
}

} // verus!
