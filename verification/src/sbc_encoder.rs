//! SBC (subband codec) encoder for Bluetooth A2DP.
//!
//! Fixed-point arithmetic throughout, no allocation: every buffer is an
//! array sized to the largest geometry (8 subbands, 16 blocks, 2 channels).

pub mod analysis;
pub mod bitalloc;
pub mod budget;
pub mod config;
pub mod fit;
pub mod frame;
pub mod joint;
pub mod quantizer;
pub mod silence;
pub mod tables;

pub use config::{
    AllocationMethod, BlockLength, ChannelMode, SamplingFrequency, SbcConfig, Subbands,
};

use vstd::prelude::*;
use analysis::{AnalysisFilter, SubbandFrame, analysis_output, history_after};
use bitalloc::{BitAllocator, allocation, cell_active, table_cells};
use frame::{FramePacker, packed_frame_len, sbc_frame};
use quantizer::{
    QuantizedFrame, Quantizer, SubbandTable, join_limit, join_mask, joint_sample,
    lemma_join_mask_off, peak, quantized_code, scale_factor_for,
};
use silence::clear;
use tables::SCALE_FACTOR_LEVELS;

verus! {

/// Maximum size of an encoded SBC frame in bytes.
pub const MAX_SBC_FRAME_SIZE: usize = 512;

/// Samples per SBC frame per channel for 16 blocks of 8 subbands.
pub const SAMPLES_PER_FRAME: usize = 128;

/// Error types for SBC encoding.
#[derive(Debug, Clone, Copy, PartialEq, Eq, Structural)]
pub enum SbcError {
    /// Input buffer too small
    InputTooSmall,
    /// Output buffer too small
    OutputTooSmall,
    /// Invalid configuration
    InvalidConfig,
    /// The frame the encoder worked out cannot be packed: a cell was given
    /// more than 16 bits, or the frame is longer than the output buffer or
    /// the frame-size limit.
    EncoderError,
}

/// Everything the encoder works out for one frame before it quantizes and
/// packs it.
pub ghost struct FramePlan {
    /// Subband samples from the analysis filterbank.
    pub subbands: SubbandFrame,
    /// Scale factor of each channel/subband.
    pub scale_factors: SubbandTable,
    /// Subband samples after the joint-stereo stage.
    pub joint: SubbandFrame,
    /// Join flags.
    pub join_flags: u8,
    /// Bits allocated to each channel/subband.
    pub bits: SubbandTable,
}

/// Whether `plan` is what the stages produce, one after the other, from a
/// filter history and a PCM buffer.
pub open spec fn plan_describes(
    plan: FramePlan,
    history: [[i32; 80]; 2],
    pcm: Seq<i16>,
    config: SbcConfig,
) -> bool {
    let channels = config.spec_channels() as int;
    let subbands = config.subbands.spec_count() as int;
    let blocks = config.block_length.spec_count() as int;
    &&& forall|ch: int, blk: int, sb: int|
        0 <= ch < 2 && 0 <= blk < 16 && 0 <= sb < 8 ==> #[trigger] plan.subbands[ch][blk][sb]
            == analysis_output(history, pcm, config, ch, blk, sb)
    &&& forall|ch: int, sb: int|
        0 <= ch < 2 && 0 <= sb < 8 ==> #[trigger] plan.scale_factors[ch][sb] == (if ch < channels
            && sb < subbands {
            scale_factor_for(peak(plan.subbands, ch, sb, blocks))
        } else {
            0
        })
    &&& forall|ch: int, blk: int, sb: int|
        0 <= ch < 2 && 0 <= blk < 16 && 0 <= sb < 8 ==> #[trigger] plan.joint[ch][blk][sb]
            == joint_sample(plan.subbands, plan.scale_factors, config, ch, blk, sb)
    &&& plan.join_flags == join_mask(
        plan.subbands,
        plan.scale_factors,
        config,
        join_limit(subbands),
    )
    &&& table_cells(plan.bits) == allocation(plan.scale_factors, config, plan.join_flags)
}

/// The plan of the frame that a filter history and a PCM buffer give.
pub open spec fn frame_plan(history: [[i32; 80]; 2], pcm: Seq<i16>, config: SbcConfig) -> FramePlan {
    choose|plan: FramePlan| plan_describes(plan, history, pcm, config)
}

/// Whether `codes` are the quantized samples of a plan: the code of every
/// active cell with bits allocated, zero everywhere else.
pub open spec fn codes_describe(codes: QuantizedFrame, plan: FramePlan, config: SbcConfig) -> bool {
    forall|ch: int, blk: int, sb: int|
        0 <= ch < 2 && 0 <= blk < 16 && 0 <= sb < 8 ==> #[trigger] codes[ch][blk][sb] == (if ch
            < config.spec_channels() && blk < config.block_length.spec_count() && sb
            < config.subbands.spec_count() && plan.bits[ch][sb] > 0 {
            quantized_code(
                plan.joint[ch][blk][sb] as int,
                plan.bits[ch][sb] as int,
                SCALE_FACTOR_LEVELS[plan.scale_factors[ch][sb] as int] as int,
            )
        } else {
            0
        })
}

/// The quantized samples of a plan.
pub open spec fn plan_codes(plan: FramePlan, config: SbcConfig) -> QuantizedFrame {
    choose|codes: QuantizedFrame| codes_describe(codes, plan, config)
}

/// Whether a plan can be packed into `capacity` bytes: no active cell has
/// more than 16 bits, and the packed frame is within the capacity and the
/// frame-size limit.
pub open spec fn plan_fits(plan: FramePlan, config: SbcConfig, capacity: int) -> bool {
    &&& forall|i: int|
        cell_active(i, config.spec_channels() as int, config.subbands.spec_count() as int)
            ==> plan.bits[i / 8][i % 8] <= 16
    &&& packed_frame_len(config, plan.bits) <= capacity
    &&& packed_frame_len(config, plan.bits) <= MAX_SBC_FRAME_SIZE
}

/// The bytes of the frame that a filter history and a PCM buffer give.
pub open spec fn encoded_frame(history: [[i32; 80]; 2], pcm: Seq<i16>, config: SbcConfig) -> Seq<
    u8,
> {
    let plan = frame_plan(history, pcm, config);
    sbc_frame(config, plan.join_flags, plan.scale_factors, plan.bits, plan_codes(plan, config))
}

/// How a call of `encode_frame` ends, from the sizes of its buffers and the
/// plan of the frame.
pub open spec fn encode_outcome(
    history: [[i32; 80]; 2],
    pcm: Seq<i16>,
    config: SbcConfig,
    capacity: int,
) -> Result<usize, SbcError> {
    let plan = frame_plan(history, pcm, config);
    if pcm.len() < config.spec_samples_per_frame() * config.spec_channels() {
        Err(SbcError::InputTooSmall)
    } else if capacity < config.spec_frame_size() {
        Err(SbcError::OutputTooSmall)
    } else if !plan_fits(plan, config, capacity) {
        Err(SbcError::EncoderError)
    } else {
        Ok(packed_frame_len(config, plan.bits) as usize)
    }
}

proof fn lemma_frames_equal(a: SubbandFrame, b: SubbandFrame)
    requires
        forall|ch: int, blk: int, sb: int|
            0 <= ch < 2 && 0 <= blk < 16 && 0 <= sb < 8 ==> #[trigger] a[ch][blk][sb]
                == b[ch][blk][sb],
    ensures
        a == b,
{
    assert forall|ch: int| 0 <= ch < 2 implies #[trigger] a[ch] == b[ch] by {
        assert forall|blk: int| 0 <= blk < 16 implies #[trigger] a[ch][blk] == b[ch][blk] by {
            assert forall|sb: int| 0 <= sb < 8 implies #[trigger] a[ch][blk][sb]
                == b[ch][blk][sb] by {}
            assert(a[ch][blk] =~= b[ch][blk]);
        }
        assert(a[ch] =~= b[ch]);
    }
    assert(a =~= b);
}

proof fn lemma_codes_equal(a: QuantizedFrame, b: QuantizedFrame)
    requires
        forall|ch: int, blk: int, sb: int|
            0 <= ch < 2 && 0 <= blk < 16 && 0 <= sb < 8 ==> #[trigger] a[ch][blk][sb]
                == b[ch][blk][sb],
    ensures
        a == b,
{
    assert forall|ch: int| 0 <= ch < 2 implies #[trigger] a[ch] == b[ch] by {
        assert forall|blk: int| 0 <= blk < 16 implies #[trigger] a[ch][blk] == b[ch][blk] by {
            assert forall|sb: int| 0 <= sb < 8 implies #[trigger] a[ch][blk][sb]
                == b[ch][blk][sb] by {}
            assert(a[ch][blk] =~= b[ch][blk]);
        }
        assert(a[ch] =~= b[ch]);
    }
    assert(a =~= b);
}

proof fn lemma_tables_equal(a: SubbandTable, b: SubbandTable)
    requires
        forall|ch: int, sb: int| 0 <= ch < 2 && 0 <= sb < 8 ==> #[trigger] a[ch][sb] == b[ch][sb],
    ensures
        a == b,
{
    assert forall|ch: int| 0 <= ch < 2 implies #[trigger] a[ch] == b[ch] by {
        assert forall|sb: int| 0 <= sb < 8 implies #[trigger] a[ch][sb] == b[ch][sb] by {}
        assert(a[ch] =~= b[ch]);
    }
    assert(a =~= b);
}

/// A filter history and a PCM buffer have one plan.
pub proof fn plan_unique(
    a: FramePlan,
    b: FramePlan,
    history: [[i32; 80]; 2],
    pcm: Seq<i16>,
    config: SbcConfig,
)
    requires
        plan_describes(a, history, pcm, config),
        plan_describes(b, history, pcm, config),
    ensures
        a == b,
{
    lemma_frames_equal(a.subbands, b.subbands);
    lemma_tables_equal(a.scale_factors, b.scale_factors);
    lemma_frames_equal(a.joint, b.joint);
    assert forall|ch: int, sb: int| 0 <= ch < 2 && 0 <= sb < 8 implies #[trigger] a.bits[ch][sb]
        == b.bits[ch][sb] by {
        assert(table_cells(a.bits)[8 * ch + sb] == a.bits[ch][sb]);
        assert(table_cells(b.bits)[8 * ch + sb] == b.bits[ch][sb]);
    }
    lemma_tables_equal(a.bits, b.bits);
}

/// A plan has one set of quantized samples.
pub proof fn codes_unique(a: QuantizedFrame, b: QuantizedFrame, plan: FramePlan, config: SbcConfig)
    requires
        codes_describe(a, plan, config),
        codes_describe(b, plan, config),
    ensures
        a == b,
{
    lemma_codes_equal(a, b);
}

/// SBC encoder: the geometry of a stream and the state of its stages.
///
/// All buffers are part of the value; nothing is allocated while encoding.
pub struct SbcEncoder {
    config: SbcConfig,
    analysis: AnalysisFilter,
    allocator: BitAllocator,
    quantizer: Quantizer,
    packer: FramePacker,
}

impl SbcEncoder {
    /// The configuration the encoder was made with.
    pub closed spec fn spec_config(&self) -> SbcConfig {
        self.config
    }

    /// The filter history of each channel.
    pub closed spec fn history(&self) -> [[i32; 80]; 2] {
        self.analysis.x
    }

    /// Whether the filter history is all zero.
    pub open spec fn history_is_clear(&self) -> bool {
        clear(self.history())
    }

    /// Create a new SBC encoder with the given configuration, which must be
    /// valid.
    pub fn new(config: SbcConfig) -> (r: Self)
        requires
            config.spec_is_valid(),
        ensures
            r.spec_config() == config,
            r.history_is_clear(),
    {
        SbcEncoder {
            config,
            analysis: AnalysisFilter::new(config.subbands),
            allocator: BitAllocator::new(),
            quantizer: Quantizer::new(),
            packer: FramePacker::new(),
        }
    }

    /// Get current encoder configuration.
    pub fn config(&self) -> (r: &SbcConfig)
        ensures
            *r == self.spec_config(),
    {
        &self.config
    }

    /// The nominal frame size of the configuration.
    pub fn frame_size(&self) -> (r: usize)
        ensures
            r == self.spec_config().spec_frame_size(),
    {
        self.config.frame_size()
    }

    /// Number of PCM samples required per channel for one frame.
    pub fn samples_per_frame(&self) -> (r: usize)
        ensures
            r == self.spec_config().spec_samples_per_frame(),
    {
        self.config.samples_per_frame()
    }

    /// Encode one frame of PCM audio.
    ///
    /// `pcm` holds interleaved samples (L, R, L, R, ... with two channels),
    /// at least `samples_per_frame()` for each channel; `output` must hold
    /// at least `frame_size()` bytes. Returns the number of bytes written.
    ///
    /// Every error leaves the encoder and `output` as they were.
    pub fn encode_frame(&mut self, pcm: &[i16], output: &mut [u8]) -> (result: Result<
        usize,
        SbcError,
    >)
        ensures
            result == encode_outcome(
                old(self).history(),
                pcm@,
                old(self).spec_config(),
                old(output).len() as int,
            ),
            final(self).spec_config() == old(self).spec_config(),
            final(output).len() == old(output).len(),
            result is Err ==> *final(self) == *old(self) && final(output)@ == old(output)@,
            result matches Ok(size) ==> {
                &&& size <= old(output).len()
                &&& final(output)@.subrange(0, size as int) == encoded_frame(
                    old(self).history(),
                    pcm@,
                    old(self).spec_config(),
                )
                &&& final(output)@.subrange(size as int, old(output).len() as int) == old(
                    output,
                )@.subrange(size as int, old(output).len() as int)
                &&& forall|ch: int|
                    0 <= ch < 2 ==> #[trigger] final(self).history()[ch]@ == history_after(
                        old(self).history()[ch]@,
                        pcm@,
                        ch,
                        old(self).spec_config().subbands.spec_count() as int,
                        old(self).spec_config().spec_channels() as int,
                        if ch < old(self).spec_config().spec_channels() {
                            old(self).spec_config().block_length.spec_count() as int
                        } else {
                            0
                        },
                    )
            },
    {
        let samples_needed: usize = self.samples_per_frame() * (self.config.channels() as usize);
        let frame_size: usize = self.frame_size();

        if pcm.len() < samples_needed {
            return Err(SbcError::InputTooSmall);
        }
        if output.len() < frame_size {
            return Err(SbcError::OutputTooSmall);
        }
        let config: SbcConfig = self.config;

        // Step 1: polyphase analysis filterbank, on a copy of the filter so
        // that a frame that cannot be packed leaves the history alone.
        let mut filter: AnalysisFilter = self.analysis;
        let subbands: SubbandFrame = filter.process(pcm, &config);

        // Step 2: scale factors.
        let scale_factors: SubbandTable = self.quantizer.calc_scale_factors(&subbands, &config);

        // Step 3: joint stereo processing (if enabled).
        let (joint, join_flags): (SubbandFrame, u8) = if config.channel_mode
            == ChannelMode::JointStereo {
            self.quantizer.joint_stereo_process(subbands, &scale_factors, &config)
        } else {
            proof {
                lemma_join_flags_off(subbands, scale_factors, config);
            }
            (subbands, 0u8)
        };

        // Step 4: bit allocation.
        let bits: SubbandTable = self.allocator.allocate(&scale_factors, &config, join_flags);

        // A cell of more than 16 bits, or a frame longer than the buffer or
        // the limit, cannot be packed.
        let in_range: bool = Self::bits_in_range(&bits, &config);
        let size: usize = self.packer.frame_length(&config, &bits);
        let ghost plan = FramePlan { subbands, scale_factors, joint, join_flags, bits };
        proof {
            assert(plan_describes(plan, self.analysis.x, pcm@, config));
            plan_unique(
                plan,
                frame_plan(self.analysis.x, pcm@, config),
                self.analysis.x,
                pcm@,
                config,
            );
        }
        if !in_range || size > output.len() || size > MAX_SBC_FRAME_SIZE {
            return Err(SbcError::EncoderError);
        }
        proof {
            assert forall|ch: int, sb: int|
                0 <= ch < config.spec_channels() && 0 <= sb < config.subbands.spec_count()
                    && bits[ch][sb] > 0 implies bits[ch][sb] <= 16 && scale_factors[ch][sb]
                <= 15 by {
                assert(cell_active(
                    8 * ch + sb,
                    config.spec_channels() as int,
                    config.subbands.spec_count() as int,
                ));
                assert(bits[(8 * ch + sb) / 8][(8 * ch + sb) % 8] <= 16);
            }
        }
        // Step 5: quantize the subband samples.

        let quantized: QuantizedFrame = self.quantizer.quantize(
            &joint,
            &bits,
            &scale_factors,
            &config,
        );

        // Step 6: pack the frame.
        let written: usize = self.packer.pack(
            &config,
            join_flags,
            &scale_factors,
            &bits,
            &quantized,
            output,
        );
        self.analysis = filter;
        proof {
            assert(codes_describe(quantized, plan, config));
            codes_unique(quantized, plan_codes(plan, config), plan, config);
        }
        Ok(written)
    }

    /// Whether no active cell has more than 16 bits.
    fn bits_in_range(bits: &SubbandTable, config: &SbcConfig) -> (r: bool)
        ensures
            r == forall|i: int|
                cell_active(i, config.spec_channels() as int, config.subbands.spec_count() as int)
                    ==> bits[i / 8][i % 8] <= 16,
    {
        let num_subbands: usize = config.subbands.count();
        let num_channels: usize = config.channels() as usize;
        let mut idx: usize = 0;
        while idx < 16
            invariant
                idx <= 16,
                num_subbands == config.subbands.spec_count(),
                num_channels == config.spec_channels(),
                forall|i: int|
                    0 <= i < idx && cell_active(i, num_channels as int, num_subbands as int)
                        ==> bits[i / 8][i % 8] <= 16,
            decreases 16 - idx,
        {
            let ch: usize = idx / 8;
            let sb: usize = idx % 8;
            if ch < num_channels && sb < num_subbands && bits[ch][sb] > 16 {
                assert(cell_active(idx as int, num_channels as int, num_subbands as int));
                return false;
            }
            idx += 1;
        }
        true
    }

    /// Reset encoder state (clears filter history).
    pub fn reset(&mut self)
        ensures
            final(self).history_is_clear(),
            final(self).spec_config() == old(self).spec_config(),
    {
        self.analysis.reset();
    }
}

proof fn lemma_join_flags_off(subbands: SubbandFrame, scale_factors: SubbandTable, config: SbcConfig)
    requires
        config.channel_mode != ChannelMode::JointStereo,
    ensures
        join_mask(subbands, scale_factors, config, join_limit(config.subbands.spec_count() as int))
            == 0,
        forall|ch: int, blk: int, sb: int|
            0 <= ch < 2 && 0 <= blk < 16 && 0 <= sb < 8 ==> subbands[ch][blk][sb] == joint_sample(
                subbands,
                scale_factors,
                config,
                ch,
                blk,
                sb,
            ),
{
    lemma_join_mask_off(
        subbands,
        scale_factors,
        config,
        join_limit(config.subbands.spec_count() as int),
    );
}

/// Two encoders with clear histories and the same configuration encode
/// every PCM buffer to the same bytes, with the same outcome: an encoder
/// that was reset encodes as a new one does.
pub proof fn clear_encoders_agree(a: SbcEncoder, b: SbcEncoder, pcm: Seq<i16>, capacity: int)
    requires
        a.history_is_clear(),
        b.history_is_clear(),
        a.spec_config() == b.spec_config(),
    ensures
        a.history() == b.history(),
        encoded_frame(a.history(), pcm, a.spec_config()) == encoded_frame(
            b.history(),
            pcm,
            b.spec_config(),
        ),
        encode_outcome(a.history(), pcm, a.spec_config(), capacity) == encode_outcome(
            b.history(),
            pcm,
            b.spec_config(),
            capacity,
        ),
{
    let x = a.history();
    let y = b.history();
    assert forall|ch: int| 0 <= ch < 2 implies #[trigger] x[ch] == y[ch] by {
        assert forall|i: int| 0 <= i < 80 implies #[trigger] x[ch][i] == y[ch][i] by {}
        assert(x[ch] =~= y[ch]);
    }
    assert(x =~= y);
}

} // verus!
