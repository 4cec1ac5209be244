//! What the encoder makes of silence: from a clear filter history, a frame
//! of zero samples has zero subband samples, zero scale factors, no join
//! flags and no bits allocated. Every frame starts with the syncword.

use vstd::prelude::*;
use vstd::arithmetic::power2::lemma_pow2_pos;
use crate::sbc_encoder::{
    FramePlan, SbcError, encode_outcome, encoded_frame, frame_plan, plan_describes, plan_fits,
};
use crate::sbc_encoder::analysis::{
    SubbandFrame, analysis_output, history_after, modulate_sum, window_sum, windowed,
};
use crate::sbc_encoder::bitalloc::{
    Budget, Fill, allocation, bit_needs, cell_active, distributed, distribution, fill_pass,
    fill_round, max_need, slice_demands, slice_grant, slice_pass, sum_cells, table_cells,
};
use crate::sbc_encoder::config::{ChannelMode, SbcConfig};
use crate::sbc_encoder::frame::{block_len, packed_frame_len, scale_factor_len, sbc_frame};
use crate::sbc_encoder::quantizer::{
    QuantizedFrame, SubbandTable, dot, join_limit, join_mask, joined, joint_sample, peak,
    scale_factor_for,
};

verus! {

/// Whether the samples of `pcm` that one frame reads are all zero.
pub open spec fn silent(pcm: Seq<i16>, config: SbcConfig) -> bool {
    &&& pcm.len() >= config.spec_samples_per_frame() * config.spec_channels()
    &&& forall|i: int|
        0 <= i < config.spec_samples_per_frame() * config.spec_channels() ==> #[trigger] pcm[i]
            == 0
}

/// Whether the filter history of every channel is all zero.
pub open spec fn clear(history: [[i32; 80]; 2]) -> bool {
    forall|ch: int, i: int| 0 <= ch < 2 && 0 <= i < 80 ==> #[trigger] history[ch][i] == 0
}

/// Shifting silence into a clear history leaves it clear.
proof fn lemma_history_stays_clear(
    x: Seq<i32>,
    pcm: Seq<i16>,
    config: SbcConfig,
    ch: int,
    blocks: int,
)
    requires
        x.len() == 80,
        forall|i: int| 0 <= i < 80 ==> x[i] == 0,
        silent(pcm, config),
        0 <= ch < config.spec_channels(),
        0 <= blocks <= config.block_length.spec_count(),
    ensures
        history_after(
            x,
            pcm,
            ch,
            config.subbands.spec_count() as int,
            config.spec_channels() as int,
            blocks,
        ).len() == 80,
        forall|i: int|
            0 <= i < 80 ==> #[trigger] history_after(
                x,
                pcm,
                ch,
                config.subbands.spec_count() as int,
                config.spec_channels() as int,
                blocks,
            )[i] == 0,
    decreases blocks,
{
    let subbands = config.subbands.spec_count() as int;
    let channels = config.spec_channels() as int;
    if blocks > 0 {
        lemma_history_stays_clear(x, pcm, config, ch, blocks - 1);
        let before = history_after(x, pcm, ch, subbands, channels, blocks - 1);
        let after = history_after(x, pcm, ch, subbands, channels, blocks);
        let total = config.spec_samples_per_frame() * config.spec_channels();
        assert(total == config.block_length.spec_count() * subbands * channels) by (nonlinear_arith)
            requires
                total == (config.block_length.spec_count() * subbands) * channels,
        ;
        assert forall|i: int| 0 <= i < 80 implies #[trigger] after[i] == 0 by {
            if i < subbands {
                let at = (blocks - 1) * subbands * channels + ch + (subbands - 1 - i) * channels;
                assert(0 <= at < total) by (nonlinear_arith)
                    requires
                        at == (blocks - 1) * subbands * channels + ch + (subbands - 1 - i)
                            * channels,
                        total == config.block_length.spec_count() * subbands * channels,
                        1 <= blocks <= config.block_length.spec_count(),
                        0 <= i < subbands,
                        0 <= ch < channels,
                ;
                assert(pcm[at] == 0);
            } else if i < subbands * 10 {
                assert(before[i - subbands] == 0);
            } else {
                assert(before[i] == 0);
            }
        }
    }
}

/// A clear history windows to nothing.
proof fn lemma_window_of_clear(x: Seq<i32>, subbands: int, m: int, terms: int)
    requires
        x.len() == 80,
        forall|i: int| 0 <= i < 80 ==> x[i] == 0,
        subbands == 4 || subbands == 8,
        0 <= m < 2 * subbands,
        0 <= terms <= 5,
    ensures
        window_sum(x, subbands, m, terms) == 0,
    decreases terms,
{
    if terms > 0 {
        lemma_window_of_clear(x, subbands, m, terms - 1);
        let idx = 2 * (terms - 1) * subbands + m;
        assert(0 <= idx < 80) by (nonlinear_arith)
            requires
                idx == 2 * (terms - 1) * subbands + m,
                1 <= terms <= 5,
                0 <= m < 2 * subbands,
                subbands <= 8,
        ;
        assert(x[idx] == 0);
    }
}

/// Partial sums that are all zero modulate to nothing.
proof fn lemma_modulate_of_nothing(z: Seq<int>, subbands: int, k: int, n: int)
    requires
        0 <= n <= z.len(),
        forall|i: int| 0 <= i < z.len() ==> z[i] == 0,
    ensures
        modulate_sum(z, subbands, k, n) == 0,
    decreases n,
{
    if n > 0 {
        lemma_modulate_of_nothing(z, subbands, k, n - 1);
        assert(z[n - 1] == 0);
    }
}

/// From a clear history, silence gives zero in every subband of every
/// block.
pub proof fn silence_has_no_subband_energy(
    history: [[i32; 80]; 2],
    pcm: Seq<i16>,
    config: SbcConfig,
    ch: int,
    blk: int,
    sb: int,
)
    requires
        clear(history),
        silent(pcm, config),
        0 <= ch < 2,
        0 <= blk < 16,
        0 <= sb < 8,
    ensures
        analysis_output(history, pcm, config, ch, blk, sb) == 0,
{
    let subbands = config.subbands.spec_count() as int;
    let channels = config.spec_channels() as int;
    if ch < channels && blk < config.block_length.spec_count() && sb < subbands {
        assert forall|i: int| 0 <= i < 80 implies history[ch]@[i] == 0 by {
            assert(history[ch][i] == 0);
        }
        lemma_history_stays_clear(history[ch]@, pcm, config, ch, blk + 1);
        let x = history_after(history[ch]@, pcm, ch, subbands, channels, blk + 1);
        let z = windowed(x, subbands);
        assert forall|m: int| 0 <= m < z.len() implies z[m] == 0 by {
            lemma_window_of_clear(x, subbands, m, 5);
        }
        lemma_modulate_of_nothing(z, subbands, sb, 2 * subbands);
    }
}

/// A channel without energy has peak 0.
proof fn lemma_peak_of_nothing(subbands: SubbandFrame, ch: int, sb: int, blocks: int)
    requires
        0 <= ch < 2,
        0 <= sb < 8,
        0 <= blocks <= 16,
        forall|blk: int| 0 <= blk < 16 ==> (#[trigger] subbands[ch][blk])[sb] == 0,
    ensures
        peak(subbands, ch, sb, blocks) == 0,
        dot(subbands, ch, ch, sb, blocks) == 0,
    decreases blocks,
{
    if blocks > 0 {
        lemma_peak_of_nothing(subbands, ch, sb, blocks - 1);
        assert(subbands[ch][blocks - 1][sb] == 0);
    }
}

/// No subband is joined where the left channel has no energy.
proof fn lemma_nothing_joined(
    subbands: SubbandFrame,
    scale_factors: SubbandTable,
    config: SbcConfig,
    upto: int,
)
    requires
        0 <= upto <= 8,
        forall|blk: int, sb: int|
            0 <= blk < 16 && 0 <= sb < 8 ==> #[trigger] subbands[0][blk][sb] == 0,
    ensures
        join_mask(subbands, scale_factors, config, upto) == 0,
    decreases upto,
{
    if upto > 0 {
        lemma_nothing_joined(subbands, scale_factors, config, upto - 1);
        lemma_peak_of_nothing(subbands, 0, upto - 1, config.block_length.spec_count() as int);
        assert(!joined(subbands, scale_factors, config, upto - 1));
    }
}

proof fn lemma_sum_of_nothing(cells: Seq<int>, upto: int)
    requires
        0 <= upto <= cells.len(),
        forall|i: int| 0 <= i < cells.len() ==> cells[i] == 0,
    ensures
        sum_cells(cells, upto) == 0,
    decreases upto,
{
    if upto > 0 {
        lemma_sum_of_nothing(cells, upto - 1);
    }
}

proof fn lemma_max_need_of_idle(needs: Seq<int>, channels: int, subbands: int, upto: int)
    requires
        0 <= upto <= 16,
        needs.len() == 16,
        forall|i: int| 0 <= i < 16 && cell_active(i, channels, subbands) ==> needs[i] <= 0,
    ensures
        max_need(needs, channels, subbands, upto) <= 0,
    decreases upto,
{
    if upto > 0 {
        lemma_max_need_of_idle(needs, channels, subbands, upto - 1);
    }
}

proof fn lemma_fill_round_of_idle(needs: Seq<int>, channels: int, subbands: int, st: Fill, upto: int)
    requires
        0 <= upto <= 16,
        needs.len() == 16,
        forall|i: int| 0 <= i < 16 && cell_active(i, channels, subbands) ==> needs[i] <= 0,
    ensures
        fill_round(needs, channels, subbands, st, upto) == st,
    decreases upto,
{
    if upto > 0 {
        lemma_fill_round_of_idle(needs, channels, subbands, st, upto - 1);
    }
}

/// Cells that need nothing get nothing: where no active cell has a positive
/// need, the distribution gives no cell a bit.
pub proof fn idle_cells_get_no_bits(needs: Seq<int>, config: SbcConfig, join_flags: u8)
    requires
        needs.len() == 16,
        forall|i: int|
            0 <= i < 16 && cell_active(
                i,
                config.spec_channels() as int,
                config.subbands.spec_count() as int,
            ) ==> needs[i] <= 0,
    ensures
        distribution(needs, config, join_flags).len() == 16,
        forall|i: int| 0 <= i < 16 ==> #[trigger] distribution(needs, config, join_flags)[i] == 0,
{
    let channels = config.spec_channels() as int;
    let subbands = config.subbands.spec_count() as int;
    let none = Seq::new(16, |i: int| 0int);
    let start = Budget { bits: none, remaining: config.bitpool as int };
    let top = max_need(needs, channels, subbands, 16);
    lemma_max_need_of_idle(needs, channels, subbands, 16);
    let sliced = slice_pass(needs, channels, subbands, start, top + 1, 64);
    assert(sliced == start) by {
        if top + 1 > 0 && start.remaining > 0 {
            let demands = slice_demands(needs, none, channels, subbands, 0);
            assert forall|i: int| 0 <= i < demands.len() implies demands[i] == 0 by {}
            lemma_sum_of_nothing(demands, 16);
            assert(slice_grant(needs, none, channels, subbands, 0) =~= none);
            let next = Budget {
                bits: slice_grant(needs, none, channels, subbands, 0),
                remaining: start.remaining - 0,
            };
            assert(next == start);
            assert(slice_pass(needs, channels, subbands, next, 0, 63) == next);
        }
    }
    let filled = fill_pass(needs, channels, subbands, sliced, 256);
    assert(filled == start) by {
        if start.remaining > 0 {
            let st = Fill { bits: none, remaining: start.remaining, granted: false };
            lemma_fill_round_of_idle(needs, channels, subbands, st, 16);
        }
    }
    assert(distributed(needs, config) == start);
}

/// The plan of a silent frame, from a clear history: every subband sample
/// and every scale factor is zero, no subband is joined and no cell is
/// given a bit.
pub proof fn silence_plan_is_empty(
    plan: FramePlan,
    history: [[i32; 80]; 2],
    pcm: Seq<i16>,
    config: SbcConfig,
)
    requires
        plan_describes(plan, history, pcm, config),
        clear(history),
        silent(pcm, config),
    ensures
        forall|ch: int, blk: int, sb: int|
            0 <= ch < 2 && 0 <= blk < 16 && 0 <= sb < 8 ==> #[trigger] plan.subbands[ch][blk][sb]
                == 0,
        forall|ch: int, sb: int|
            0 <= ch < 2 && 0 <= sb < 8 ==> #[trigger] plan.scale_factors[ch][sb] == 0,
        plan.join_flags == 0,
        forall|ch: int, sb: int| 0 <= ch < 2 && 0 <= sb < 8 ==> #[trigger] plan.bits[ch][sb] == 0,
{
    let blocks = config.block_length.spec_count() as int;
    assert forall|ch: int, blk: int, sb: int|
        0 <= ch < 2 && 0 <= blk < 16 && 0 <= sb < 8 implies #[trigger] plan.subbands[ch][blk][sb]
        == 0 by {
        silence_has_no_subband_energy(history, pcm, config, ch, blk, sb);
    }
    assert forall|ch: int, sb: int| 0 <= ch < 2 && 0 <= sb < 8 implies #[trigger] plan.scale_factors[ch][sb]
        == 0 by {
        assert forall|blk: int| 0 <= blk < 16 implies (#[trigger] plan.subbands[ch][blk])[sb]
            == 0 by {
            assert(plan.subbands[ch][blk][sb] == 0);
        }
        lemma_peak_of_nothing(plan.subbands, ch, sb, blocks);
        lemma_pow2_pos(1);
    }
    lemma_nothing_joined(
        plan.subbands,
        plan.scale_factors,
        config,
        join_limit(config.subbands.spec_count() as int),
    );
    let needs = bit_needs(plan.scale_factors, config);
    assert forall|i: int|
        0 <= i < 16 && cell_active(
            i,
            config.spec_channels() as int,
            config.subbands.spec_count() as int,
        ) implies needs[i] <= 0 by {
        assert(plan.scale_factors[i / 8][i % 8] == 0);
    }
    idle_cells_get_no_bits(needs, config, plan.join_flags);
    assert forall|ch: int, sb: int| 0 <= ch < 2 && 0 <= sb < 8 implies #[trigger] plan.bits[ch][sb]
        == 0 by {
        let i = 8 * ch + sb;
        assert(table_cells(plan.bits)[i] == plan.bits[i / 8][i % 8]);
        assert(allocation(plan.scale_factors, config, plan.join_flags)[i] == 0);
    }
}

/// Every frame starts with the syncword `0x9C`, followed by the header
/// byte's place and the bitpool.
pub proof fn frame_starts_with_syncword(
    config: SbcConfig,
    join_flags: u8,
    scale_factors: SubbandTable,
    bits: SubbandTable,
    samples: QuantizedFrame,
)
    ensures
        sbc_frame(config, join_flags, scale_factors, bits, samples).len() >= 4,
        sbc_frame(config, join_flags, scale_factors, bits, samples)[0] == 0x9C,
        sbc_frame(config, join_flags, scale_factors, bits, samples)[2] == config.bitpool,
{
}

/// Number of bytes of a frame that carries no sample bits: the header, the
/// join flags in joint stereo, and four bits for each scale factor.
pub open spec fn empty_frame_len(config: SbcConfig) -> int {
    let cells = config.spec_channels() * config.subbands.spec_count();
    if config.channel_mode == ChannelMode::JointStereo {
        4 + (config.subbands.spec_count() + 4 * cells + 7) / 8
    } else {
        4 + (4 * cells + 7) / 8
    }
}

proof fn lemma_empty_payload(config: SbcConfig, bits: SubbandTable)
    requires
        forall|ch: int, sb: int| 0 <= ch < 2 && 0 <= sb < 8 ==> #[trigger] bits[ch][sb] == 0,
    ensures
        packed_frame_len(config, bits) == empty_frame_len(config),
        empty_frame_len(config) <= 13,
        empty_frame_len(config) <= config.spec_frame_size(),
{
    let channels = config.spec_channels() as int;
    let subbands = config.subbands.spec_count() as int;
    let blocks = config.block_length.spec_count() as int;
    reveal_with_fuel(scale_factor_len, 17);
    assert(scale_factor_len(channels, subbands, 16) == 4 * channels * subbands);
    lemma_block_of_nothing(bits, channels, subbands, 16);
    assert(blocks * block_len(bits, channels, subbands, 16) == 0);
    assert(0 <= blocks * config.bitpool <= 16 * 255) by (nonlinear_arith)
        requires
            0 <= blocks <= 16,
            0 <= config.bitpool <= 255,
    ;
    assert(0 <= channels * blocks * config.bitpool <= 2 * (16 * 255)) by (nonlinear_arith)
        requires
            1 <= channels <= 2,
            0 <= blocks * config.bitpool <= 16 * 255,
    ;
    assert(0 <= config.audio_bits() <= 2 * (16 * 255));
    assert(0 <= config.scale_factor_bytes() <= 10);
}

proof fn lemma_block_of_nothing(bits: SubbandTable, channels: int, subbands: int, upto: int)
    requires
        0 <= upto <= 16,
        forall|ch: int, sb: int| 0 <= ch < 2 && 0 <= sb < 8 ==> #[trigger] bits[ch][sb] == 0,
    ensures
        block_len(bits, channels, subbands, upto) == 0,
    decreases upto,
{
    if upto > 0 {
        lemma_block_of_nothing(bits, channels, subbands, upto - 1);
        assert(bits[(upto - 1) / 8][(upto - 1) % 8] == 0);
    }
}

/// A frame of zero samples and a table of zero cells.
proof fn lemma_nothing() -> (r: (SubbandFrame, SubbandTable))
    ensures
        forall|ch: int, blk: int, sb: int|
            0 <= ch < 2 && 0 <= blk < 16 && 0 <= sb < 8 ==> #[trigger] r.0[ch][blk][sb] == 0,
        forall|ch: int, sb: int| 0 <= ch < 2 && 0 <= sb < 8 ==> #[trigger] r.1[ch][sb] == 0,
{
    let row: [i32; 8] = [0i32, 0i32, 0i32, 0i32, 0i32, 0i32, 0i32, 0i32];
    let channel: [[i32; 8]; 16] = [
        row,
        row,
        row,
        row,
        row,
        row,
        row,
        row,
        row,
        row,
        row,
        row,
        row,
        row,
        row,
        row,
    ];
    let cells: [u8; 8] = [0u8, 0u8, 0u8, 0u8, 0u8, 0u8, 0u8, 0u8];
    assert forall|blk: int, sb: int| 0 <= blk < 16 && 0 <= sb < 8 implies #[trigger] channel[blk][sb]
        == 0 by {
        assert(channel[blk] == row);
    }
    ([channel, channel], [cells, cells])
}

/// A silent frame has a plan.
proof fn lemma_silence_has_a_plan(history: [[i32; 80]; 2], pcm: Seq<i16>, config: SbcConfig)
    requires
        clear(history),
        silent(pcm, config),
    ensures
        plan_describes(frame_plan(history, pcm, config), history, pcm, config),
{
    let (nothing, none) = lemma_nothing();
    let blocks = config.block_length.spec_count() as int;
    let witness = FramePlan {
        subbands: nothing,
        scale_factors: none,
        joint: nothing,
        join_flags: 0,
        bits: none,
    };
    assert forall|ch: int, blk: int, sb: int|
        0 <= ch < 2 && 0 <= blk < 16 && 0 <= sb < 8 implies #[trigger] nothing[ch][blk][sb]
        == analysis_output(history, pcm, config, ch, blk, sb) by {
        silence_has_no_subband_energy(history, pcm, config, ch, blk, sb);
    }
    assert forall|ch: int, sb: int| 0 <= ch < 2 && 0 <= sb < 8 implies peak(nothing, ch, sb, blocks)
        == 0 && dot(nothing, ch, ch, sb, blocks) == 0 by {
        assert forall|blk: int| 0 <= blk < 16 implies (#[trigger] nothing[ch][blk])[sb] == 0 by {
            assert(nothing[ch][blk][sb] == 0);
        }
        lemma_peak_of_nothing(nothing, ch, sb, blocks);
    }
    lemma_pow2_pos(1);
    assert(scale_factor_for(0) == 0);
    lemma_nothing_joined(nothing, none, config, join_limit(config.subbands.spec_count() as int));
    assert forall|ch: int, blk: int, sb: int|
        0 <= ch < 2 && 0 <= blk < 16 && 0 <= sb < 8 implies #[trigger] nothing[ch][blk][sb]
        == joint_sample(nothing, none, config, ch, blk, sb) by {
        assert forall|b: int| 0 <= b < 16 implies (#[trigger] nothing[0][b])[sb] == 0 by {
            assert(nothing[0][b][sb] == 0);
        }
        lemma_peak_of_nothing(nothing, 0, sb, blocks);
        assert(!joined(nothing, none, config, sb));
    }
    let needs = bit_needs(none, config);
    assert forall|i: int|
        0 <= i < 16 && cell_active(
            i,
            config.spec_channels() as int,
            config.subbands.spec_count() as int,
        ) implies needs[i] <= 0 by {
        assert(none[i / 8][i % 8] == 0);
    }
    idle_cells_get_no_bits(needs, config, 0);
    assert(table_cells(none) =~= allocation(none, config, 0)) by {
        assert forall|i: int| 0 <= i < 16 implies table_cells(none)[i] == 0 by {
            assert(none[i / 8][i % 8] == 0);
        }
    }
    assert(plan_describes(witness, history, pcm, config));
}

/// From a clear history, a silent frame always encodes, whatever the
/// configuration, into any buffer of the nominal frame size: the outcome is
/// the length of a frame without sample bits, at most 13 bytes, and the
/// history that the frame leaves behind is clear again. So any number of
/// silent frames in a row encode, each within the frame-size limit.
pub proof fn silence_always_encodes(
    history: [[i32; 80]; 2],
    pcm: Seq<i16>,
    config: SbcConfig,
    capacity: int,
)
    requires
        clear(history),
        silent(pcm, config),
        capacity >= config.spec_frame_size(),
    ensures
        encode_outcome(history, pcm, config, capacity) == Ok::<usize, SbcError>(
            empty_frame_len(config) as usize,
        ),
        empty_frame_len(config) <= 13,
        encoded_frame(history, pcm, config)[0] == 0x9C,
        forall|ch: int, i: int|
            0 <= ch < config.spec_channels() && 0 <= i < 80 ==> #[trigger] history_after(
                history[ch]@,
                pcm,
                ch,
                config.subbands.spec_count() as int,
                config.spec_channels() as int,
                config.block_length.spec_count() as int,
            )[i] == 0,
{
    lemma_silence_has_a_plan(history, pcm, config);
    let plan = frame_plan(history, pcm, config);
    silence_plan_is_empty(plan, history, pcm, config);
    lemma_empty_payload(config, plan.bits);
    assert(plan_fits(plan, config, capacity)) by {
        assert forall|i: int|
            cell_active(
                i,
                config.spec_channels() as int,
                config.subbands.spec_count() as int,
            ) implies plan.bits[i / 8][i % 8] <= 16 by {
            assert(plan.bits[i / 8][i % 8] == 0);
        }
    }
    assert forall|ch: int, i: int|
        0 <= ch < config.spec_channels() && 0 <= i < 80 implies #[trigger] history_after(
        history[ch]@,
        pcm,
        ch,
        config.subbands.spec_count() as int,
        config.spec_channels() as int,
        config.block_length.spec_count() as int,
    )[i] == 0 by {
        assert forall|j: int| 0 <= j < 80 implies history[ch]@[j] == 0 by {
            assert(history[ch][j] == 0);
        }
        lemma_history_stays_clear(
            history[ch]@,
            pcm,
            config,
            ch,
            config.block_length.spec_count() as int,
        );
    }
}

} // verus!
