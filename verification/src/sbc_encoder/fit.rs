//! When a frame fits: with SNR allocation, in every mode but joint stereo,
//! the packed frame is never longer than the nominal frame size, and no
//! cell has more than 16 bits.

use vstd::prelude::*;
use crate::sbc_encoder::{FramePlan, MAX_SBC_FRAME_SIZE, plan_describes, plan_fits};
use crate::sbc_encoder::analysis::SubbandFrame;
use crate::sbc_encoder::bitalloc::{allocation, cell_active, sum_cells, table_cells};
use crate::sbc_encoder::budget::{allocation_total, snr_allocation_cell_range};
use crate::sbc_encoder::config::{AllocationMethod, ChannelMode, SbcConfig};
use crate::sbc_encoder::frame::{block_len, packed_frame_len, scale_factor_len};
use crate::sbc_encoder::quantizer::{SubbandTable, peak, scale_factor_is_least};

verus! {

proof fn lemma_peak_not_negative(subbands: SubbandFrame, ch: int, sb: int, blocks: int)
    ensures
        peak(subbands, ch, sb, blocks) >= 0,
    decreases blocks,
{
    if blocks > 0 {
        lemma_peak_not_negative(subbands, ch, sb, blocks - 1);
    }
}

/// The sample bits of one block are at most the total of the table.
proof fn lemma_block_within_total(bits: SubbandTable, channels: int, subbands: int, upto: int)
    requires
        0 <= upto <= 16,
    ensures
        0 <= block_len(bits, channels, subbands, upto) <= sum_cells(table_cells(bits), upto),
    decreases upto,
{
    if upto > 0 {
        lemma_block_within_total(bits, channels, subbands, upto - 1);
        assert(table_cells(bits)[upto - 1] == bits[(upto - 1) / 8][(upto - 1) % 8]);
    }
}

/// A frame whose cells share out at most the bitpool is no longer than the
/// nominal frame size, in every mode but joint stereo.
pub proof fn shared_pool_fits_nominal_size(config: SbcConfig, bits: SubbandTable)
    requires
        config.channel_mode != ChannelMode::JointStereo,
        sum_cells(table_cells(bits), 16) <= config.bitpool,
    ensures
        packed_frame_len(config, bits) <= config.spec_frame_size(),
{
    let channels = config.spec_channels() as int;
    let subbands = config.subbands.spec_count() as int;
    let blocks = config.block_length.spec_count() as int;
    let pool = config.bitpool as int;
    reveal_with_fuel(scale_factor_len, 17);
    assert(scale_factor_len(channels, subbands, 16) == 4 * channels * subbands);
    lemma_block_within_total(bits, channels, subbands, 16);
    let per_block = block_len(bits, channels, subbands, 16);
    assert(0 <= blocks * per_block <= blocks * pool) by (nonlinear_arith)
        requires
            0 <= per_block <= pool,
            0 <= blocks,
    ;
    assert(blocks * pool <= channels * blocks * pool <= 2 * 16 * 255) by (nonlinear_arith)
        requires
            1 <= channels <= 2,
            0 <= blocks <= 16,
            0 <= pool <= 255,
    ;
    assert(0 <= blocks * pool <= config.audio_bits());
    assert(config.scale_factor_bytes() * 8 == 4 * channels * subbands);
}

/// With SNR allocation, in every mode but joint stereo, the frame that the
/// stages plan fits any buffer of the nominal frame size, provided the
/// nominal size is within the frame-size limit: no cell has more than 16
/// bits and the packed frame is no longer than the nominal size.
pub proof fn plain_snr_frames_fit(
    plan: FramePlan,
    history: [[i32; 80]; 2],
    pcm: Seq<i16>,
    config: SbcConfig,
    capacity: int,
)
    requires
        plan_describes(plan, history, pcm, config),
        config.channel_mode != ChannelMode::JointStereo,
        config.allocation_method == AllocationMethod::Snr,
        config.spec_frame_size() <= MAX_SBC_FRAME_SIZE,
        capacity >= config.spec_frame_size(),
    ensures
        plan_fits(plan, config, capacity),
        packed_frame_len(config, plan.bits) <= config.spec_frame_size(),
{
    let blocks = config.block_length.spec_count() as int;
    assert forall|ch: int, sb: int| 0 <= ch < 2 && 0 <= sb < 8 implies plan.scale_factors[ch][sb]
        <= 15 by {
        lemma_peak_not_negative(plan.subbands, ch, sb, blocks);
        scale_factor_is_least(peak(plan.subbands, ch, sb, blocks));
    }
    snr_allocation_cell_range(plan.scale_factors, config, plan.join_flags);
    allocation_total(plan.scale_factors, config, plan.join_flags);
    shared_pool_fits_nominal_size(config, plan.bits);
    assert forall|i: int|
        cell_active(
            i,
            config.spec_channels() as int,
            config.subbands.spec_count() as int,
        ) implies plan.bits[i / 8][i % 8] <= 16 by {
        assert(table_cells(plan.bits)[i] == plan.bits[i / 8][i % 8]);
        assert(allocation(plan.scale_factors, config, plan.join_flags)[i] <= 16);
    }
}

} // verus!
