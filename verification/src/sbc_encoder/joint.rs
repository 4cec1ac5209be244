//! What the joint-stereo stage makes of a frame: which bit of the join
//! flags stands for which subband, and what becomes of two channels that
//! carry the same signal.

use vstd::prelude::*;
use crate::sbc_encoder::{FramePlan, plan_describes};
use crate::sbc_encoder::analysis::{SubbandFrame, analysis_output, history_after};
use crate::sbc_encoder::bitalloc::join_bit;
use crate::sbc_encoder::config::{ChannelMode, SbcConfig};
use crate::sbc_encoder::quantizer::{
    SubbandTable, dot, join_limit, join_mask, joined, joint_sample, peak, scale_factor_for,
};

verus! {

/// Whether both channels carry the same samples in subband `sb`.
pub open spec fn channels_agree(subbands: SubbandFrame, sb: int, blocks: int) -> bool {
    forall|blk: int|
        0 <= blk < blocks ==> (#[trigger] subbands[0][blk])[sb] == subbands[1][blk][sb]
}

/// Whether channel `ch` has a nonzero sample in subband `sb`.
pub open spec fn sounding(subbands: SubbandFrame, ch: int, sb: int, blocks: int) -> bool {
    exists|blk: int| 0 <= blk < blocks && (#[trigger] subbands[ch][blk])[sb] != 0
}

/// Whether the scale factors of subband `sb` are those of its samples.
pub open spec fn scaled_by_peak(
    subbands: SubbandFrame,
    scale_factors: SubbandTable,
    sb: int,
    blocks: int,
) -> bool {
    forall|ch: int|
        0 <= ch < 2 ==> (#[trigger] scale_factors[ch])[sb] == scale_factor_for(
            peak(subbands, ch, sb, blocks),
        )
}

/// The energy of a channel in a subband is zero exactly when the channel is
/// silent there.
proof fn lemma_energy(subbands: SubbandFrame, ch: int, sb: int, blocks: int)
    requires
        0 <= blocks,
    ensures
        dot(subbands, ch, ch, sb, blocks) >= 0,
        dot(subbands, ch, ch, sb, blocks) != 0 <==> sounding(subbands, ch, sb, blocks),
    decreases blocks,
{
    if blocks > 0 {
        lemma_energy(subbands, ch, sb, blocks - 1);
        let x = subbands[ch][blocks - 1][sb] as int;
        assert(x * x >= 0 && (x * x == 0 <==> x == 0)) by (nonlinear_arith);
        if sounding(subbands, ch, sb, blocks - 1) {
            let blk = choose|blk: int|
                0 <= blk < blocks - 1 && (#[trigger] subbands[ch][blk])[sb] != 0;
            assert(0 <= blk < blocks && subbands[ch][blk][sb] != 0);
        }
        if x != 0 {
            assert(0 <= blocks - 1 < blocks && subbands[ch][blocks - 1][sb] != 0);
        }
        if sounding(subbands, ch, sb, blocks) {
            let blk = choose|blk: int|
                0 <= blk < blocks && (#[trigger] subbands[ch][blk])[sb] != 0;
            if blk < blocks - 1 {
                assert(0 <= blk < blocks - 1 && subbands[ch][blk][sb] != 0);
            }
        }
    }
}

/// Channels that agree have the same energy, and their cross product is
/// that energy too; their peaks are equal.
proof fn lemma_agreeing_channels(subbands: SubbandFrame, sb: int, blocks: int)
    requires
        0 <= blocks,
        channels_agree(subbands, sb, blocks),
    ensures
        dot(subbands, 0, 1, sb, blocks) == dot(subbands, 0, 0, sb, blocks),
        dot(subbands, 1, 1, sb, blocks) == dot(subbands, 0, 0, sb, blocks),
        peak(subbands, 0, sb, blocks) == peak(subbands, 1, sb, blocks),
    decreases blocks,
{
    if blocks > 0 {
        assert(subbands[0][blocks - 1][sb] == subbands[1][blocks - 1][sb]);
        lemma_agreeing_channels(subbands, sb, blocks - 1);
    }
}

/// In joint-stereo mode, a subband below the join limit in which both
/// channels carry the same samples is joined exactly when it is not silent.
/// Once joined, its mid channel is the common signal and its side channel
/// is zero in every block.
pub proof fn identical_channels_join(
    subbands: SubbandFrame,
    scale_factors: SubbandTable,
    config: SbcConfig,
    sb: int,
)
    requires
        config.channel_mode == ChannelMode::JointStereo,
        0 <= sb < join_limit(config.subbands.spec_count() as int),
        channels_agree(subbands, sb, config.block_length.spec_count() as int),
        scaled_by_peak(subbands, scale_factors, sb, config.block_length.spec_count() as int),
    ensures
        joined(subbands, scale_factors, config, sb) <==> sounding(
            subbands,
            0,
            sb,
            config.block_length.spec_count() as int,
        ),
        joined(subbands, scale_factors, config, sb) ==> forall|blk: int|
            0 <= blk < config.block_length.spec_count() ==> {
                &&& #[trigger] joint_sample(subbands, scale_factors, config, 0, blk, sb)
                    == subbands[0][blk][sb]
                &&& joint_sample(subbands, scale_factors, config, 1, blk, sb) == 0
            },
{
    let blocks = config.block_length.spec_count() as int;
    lemma_agreeing_channels(subbands, sb, blocks);
    lemma_energy(subbands, 0, sb, blocks);
    assert(scale_factors[0][sb] == scale_factor_for(peak(subbands, 0, sb, blocks)));
    assert(scale_factors[1][sb] == scale_factor_for(peak(subbands, 1, sb, blocks)));
    if joined(subbands, scale_factors, config, sb) {
        assert forall|blk: int| 0 <= blk < blocks implies {
            &&& #[trigger] joint_sample(subbands, scale_factors, config, 0, blk, sb)
                == subbands[0][blk][sb]
            &&& joint_sample(subbands, scale_factors, config, 1, blk, sb) == 0
        } by {
            assert(subbands[0][blk][sb] == subbands[1][blk][sb]);
        }
    }
}

proof fn lemma_set_bit(mask: u8, s: u8, t: u32)
    requires
        s < 8,
        t < 8,
    ensures
        ((mask | (1u8 << s)) >> t) & 1 == 1 <==> (t == s || (mask >> t) & 1 == 1),
        (0u8 >> t) & 1 == 0,
        (mask >> t) & 1 == 1 ==> mask != 0,
{
    assert(s < 8 && t < 8 ==> (((mask | (1u8 << s)) >> t) & 1 == 1 <==> (t == s || (mask >> t) & 1
        == 1))) by (bit_vector);
    assert((0u8 >> t) & 1 == 0) by (bit_vector);
    assert((mask >> t) & 1 == 1 ==> mask != 0) by (bit_vector);
}

/// The join flags over the first `upto` subbands mark subband `sb`, at bit
/// `subbands - 1 - sb`, exactly when `sb` is one of them and is joined.
pub proof fn join_mask_marks_joined(
    subbands: SubbandFrame,
    scale_factors: SubbandTable,
    config: SbcConfig,
    upto: int,
    sb: int,
)
    requires
        0 <= upto <= config.subbands.spec_count(),
        0 <= sb < config.subbands.spec_count(),
    ensures
        join_bit(
            join_mask(subbands, scale_factors, config, upto),
            config.subbands.spec_count() as int,
            sb,
        ) <==> sb < upto && joined(subbands, scale_factors, config, sb),
    decreases upto,
{
    let count = config.subbands.spec_count() as int;
    let t = (count - 1 - sb) as u32;
    if upto <= 0 {
        lemma_set_bit(0, 0, t);
    } else {
        join_mask_marks_joined(subbands, scale_factors, config, upto - 1, sb);
        let rest = join_mask(subbands, scale_factors, config, upto - 1);
        let s = (count - upto) as u8;
        lemma_set_bit(rest, s, t);
    }
}

/// Identical channels set join flags: in joint-stereo mode, when both
/// channels carry the same samples in every subband and some subband below
/// the join limit is not silent, the join flags are not zero, and the side
/// channel of every joined subband is zero in every block.
pub proof fn identical_channels_set_join_flags(
    subbands: SubbandFrame,
    scale_factors: SubbandTable,
    config: SbcConfig,
)
    requires
        config.channel_mode == ChannelMode::JointStereo,
        forall|sb: int|
            0 <= sb < config.subbands.spec_count() ==> #[trigger] channels_agree(
                subbands,
                sb,
                config.block_length.spec_count() as int,
            ) && scaled_by_peak(
                subbands,
                scale_factors,
                sb,
                config.block_length.spec_count() as int,
            ),
        exists|sb: int|
            0 <= sb < join_limit(config.subbands.spec_count() as int) && #[trigger] sounding(
                subbands,
                0,
                sb,
                config.block_length.spec_count() as int,
            ),
    ensures
        join_mask(
            subbands,
            scale_factors,
            config,
            join_limit(config.subbands.spec_count() as int),
        ) != 0,
        forall|sb: int, blk: int|
            joined(subbands, scale_factors, config, sb) && 0 <= blk
                < config.block_length.spec_count() ==> #[trigger] joint_sample(
                subbands,
                scale_factors,
                config,
                1,
                blk,
                sb,
            ) == 0,
{
    let count = config.subbands.spec_count() as int;
    let blocks = config.block_length.spec_count() as int;
    let limit = join_limit(count);
    let loud = choose|sb: int| 0 <= sb < limit && #[trigger] sounding(subbands, 0, sb, blocks);
    assert(channels_agree(subbands, loud, blocks));
    identical_channels_join(subbands, scale_factors, config, loud);
    join_mask_marks_joined(subbands, scale_factors, config, limit, loud);
    let flags = join_mask(subbands, scale_factors, config, limit);
    lemma_set_bit(flags, 0, (count - 1 - loud) as u32);
    assert forall|sb: int, blk: int|
        joined(subbands, scale_factors, config, sb) && 0 <= blk < blocks implies #[trigger] joint_sample(
        subbands,
        scale_factors,
        config,
        1,
        blk,
        sb,
    ) == 0 by {
        assert(channels_agree(subbands, sb, blocks));
        identical_channels_join(subbands, scale_factors, config, sb);
    }
}

/// Whether an interleaved two-channel PCM buffer carries the same sample
/// on both channels throughout one frame.
pub open spec fn same_on_both_channels(pcm: Seq<i16>, config: SbcConfig) -> bool {
    &&& config.spec_channels() == 2
    &&& pcm.len() >= 2 * config.spec_samples_per_frame()
    &&& forall|n: int|
        0 <= n < config.spec_samples_per_frame() ==> #[trigger] pcm[2 * n] == pcm[2 * n + 1]
}

/// Two equal histories stay equal while the same samples are shifted into
/// both.
proof fn lemma_histories_stay_equal(x: Seq<i32>, pcm: Seq<i16>, config: SbcConfig, blocks: int)
    requires
        same_on_both_channels(pcm, config),
        0 <= blocks <= config.block_length.spec_count(),
    ensures
        history_after(x, pcm, 0, config.subbands.spec_count() as int, 2, blocks) == history_after(
            x,
            pcm,
            1,
            config.subbands.spec_count() as int,
            2,
            blocks,
        ),
    decreases blocks,
{
    let subbands = config.subbands.spec_count() as int;
    if blocks > 0 {
        lemma_histories_stay_equal(x, pcm, config, blocks - 1);
        let before = history_after(x, pcm, 0, subbands, 2, blocks - 1);
        let left = history_after(x, pcm, 0, subbands, 2, blocks);
        let right = history_after(x, pcm, 1, subbands, 2, blocks);
        assert forall|i: int| 0 <= i < before.len() implies left[i] == right[i] by {
            if i < subbands {
                let n = (blocks - 1) * subbands + (subbands - 1 - i);
                assert(0 <= n < config.block_length.spec_count() * subbands) by (nonlinear_arith)
                    requires
                        n == (blocks - 1) * subbands + (subbands - 1 - i),
                        1 <= blocks <= config.block_length.spec_count(),
                        0 <= i < subbands,
                ;
                assert((blocks - 1) * subbands * 2 + 0 + (subbands - 1 - i) * 2 == 2 * n)
                    by (nonlinear_arith)
                    requires
                        n == (blocks - 1) * subbands + (subbands - 1 - i),
                ;
                assert(pcm[2 * n] == pcm[2 * n + 1]);
            }
        }
        assert(left =~= right);
    }
}

/// From equal filter histories, PCM that carries the same samples on both
/// channels gives both channels the same subband samples.
pub proof fn identical_pcm_gives_identical_subbands(
    history: [[i32; 80]; 2],
    pcm: Seq<i16>,
    config: SbcConfig,
    blk: int,
    sb: int,
)
    requires
        history[0] == history[1],
        same_on_both_channels(pcm, config),
        0 <= blk < 16,
        0 <= sb < 8,
    ensures
        analysis_output(history, pcm, config, 0, blk, sb) == analysis_output(
            history,
            pcm,
            config,
            1,
            blk,
            sb,
        ),
{
    if blk < config.block_length.spec_count() {
        lemma_histories_stay_equal(history[0]@, pcm, config, blk + 1);
    }
}

/// Identical channels through the encoder: in joint-stereo mode, from equal
/// filter histories and PCM that carries the same samples on both channels,
/// a frame in which some subband below the join limit is not silent has
/// join flags that are not zero, and the side channel of every joined
/// subband is zero in every block.
pub proof fn identical_pcm_sets_join_flags(
    plan: FramePlan,
    history: [[i32; 80]; 2],
    pcm: Seq<i16>,
    config: SbcConfig,
)
    requires
        plan_describes(plan, history, pcm, config),
        config.channel_mode == ChannelMode::JointStereo,
        history[0] == history[1],
        same_on_both_channels(pcm, config),
        exists|sb: int|
            0 <= sb < join_limit(config.subbands.spec_count() as int) && #[trigger] sounding(
                plan.subbands,
                0,
                sb,
                config.block_length.spec_count() as int,
            ),
    ensures
        plan.join_flags != 0,
        forall|sb: int, blk: int|
            0 <= sb < 8 && 0 <= blk < config.block_length.spec_count() && joined(
                plan.subbands,
                plan.scale_factors,
                config,
                sb,
            ) ==> #[trigger] plan.joint[1][blk][sb] == 0,
{
    let blocks = config.block_length.spec_count() as int;
    assert forall|sb: int| 0 <= sb < config.subbands.spec_count() implies #[trigger] channels_agree(
        plan.subbands,
        sb,
        blocks,
    ) && scaled_by_peak(plan.subbands, plan.scale_factors, sb, blocks) by {
        assert forall|blk: int| 0 <= blk < blocks implies (#[trigger] plan.subbands[0][blk])[sb]
            == plan.subbands[1][blk][sb] by {
            identical_pcm_gives_identical_subbands(history, pcm, config, blk, sb);
            assert(plan.subbands[0][blk][sb] == analysis_output(history, pcm, config, 0, blk, sb));
            assert(plan.subbands[1][blk][sb] == analysis_output(history, pcm, config, 1, blk, sb));
        }
        assert forall|ch: int| 0 <= ch < 2 implies (#[trigger] plan.scale_factors[ch])[sb]
            == scale_factor_for(peak(plan.subbands, ch, sb, blocks)) by {
            assert(plan.scale_factors[ch][sb] == scale_factor_for(
                peak(plan.subbands, ch, sb, blocks),
            ));
        }
    }
    identical_channels_set_join_flags(plan.subbands, plan.scale_factors, config);
    assert forall|sb: int, blk: int|
        0 <= sb < 8 && 0 <= blk < blocks && joined(
            plan.subbands,
            plan.scale_factors,
            config,
            sb,
        ) implies #[trigger] plan.joint[1][blk][sb] == 0 by {
        assert(plan.joint[1][blk][sb] == joint_sample(
            plan.subbands,
            plan.scale_factors,
            config,
            1,
            blk,
            sb,
        ));
    }
}

} // verus!
