//! Scale factors, the joint-stereo decision and sample quantization.

use vstd::prelude::*;
use vstd::arithmetic::power2::{
    lemma2_to64, lemma_pow2_pos, lemma_pow2_strictly_increases, pow2,
};
use vstd::bits::lemma_u32_shl_is_mul;
use vstd::std_specs::bits::{axiom_u32_leading_zeros, u32_leading_zeros};
use crate::sbc_encoder::analysis::SubbandFrame;
use crate::sbc_encoder::config::{ChannelMode, SbcConfig};
use crate::sbc_encoder::tables::SCALE_FACTOR_LEVELS;

verus! {

/// Scale factors or allocated bits of one frame: `[channel][subband]`.
pub type SubbandTable = [[u8; 8]; 2];

/// Quantized samples of one frame: `[channel][block][subband]`.
pub type QuantizedFrame = [[[u16; 8]; 16]; 2];

/// Absolute value of a sample.
pub open spec fn magnitude(v: int) -> int {
    if v < 0 {
        -v
    } else {
        v
    }
}

/// The largest magnitude among the first `blocks` blocks of one
/// channel/subband.
pub open spec fn peak(subbands: SubbandFrame, ch: int, sb: int, blocks: int) -> int
    decreases blocks,
{
    if blocks <= 0 {
        0
    } else {
        let rest = peak(subbands, ch, sb, blocks - 1);
        let here = magnitude(subbands[ch][blocks - 1][sb] as int);
        if here > rest {
            here
        } else {
            rest
        }
    }
}

/// The least `t >= s` with `2^(t+1)` above `peak_value`, capped at 15.
pub open spec fn scale_factor_from(peak_value: int, s: int) -> int
    decreases 15 - s,
{
    if s >= 15 || peak_value < pow2((s + 1) as nat) {
        s
    } else {
        scale_factor_from(peak_value, s + 1)
    }
}

/// The scale factor of a peak magnitude: the least `s` in `0..=15` such that
/// `2^(s+1)` exceeds it, and 15 where there is none. A peak of 0 or 1 has
/// scale factor 0.
pub open spec fn scale_factor_for(peak_value: int) -> int {
    scale_factor_from(peak_value, 0)
}

/// What pins a scale factor down: it is within `0..=15`, `2^(s+1)` exceeds
/// the peak unless the cap was hit, and no smaller `s` would do.
pub proof fn scale_factor_is_least(peak_value: int)
    requires
        0 <= peak_value,
    ensures
        0 <= scale_factor_for(peak_value) <= 15,
        scale_factor_for(peak_value) < 15 ==> peak_value < pow2(
            (scale_factor_for(peak_value) + 1) as nat,
        ),
        scale_factor_for(peak_value) > 0 ==> peak_value >= pow2(
            scale_factor_for(peak_value) as nat,
        ),
{
    lemma_scale_search_range(peak_value, 0);
}

proof fn lemma_scale_search_range(peak_value: int, s: int)
    requires
        0 <= s <= 15,
        s > 0 ==> peak_value >= pow2(s as nat),
    ensures
        s <= scale_factor_from(peak_value, s) <= 15,
        scale_factor_from(peak_value, s) < 15 ==> peak_value < pow2(
            (scale_factor_from(peak_value, s) + 1) as nat,
        ),
        scale_factor_from(peak_value, s) > 0 ==> peak_value >= pow2(
            scale_factor_from(peak_value, s) as nat,
        ),
    decreases 15 - s,
{
    if s < 15 && peak_value >= pow2((s + 1) as nat) {
        lemma_scale_search_range(peak_value, s + 1);
    }
}

/// A value whose highest set bit is bit `k` has scale factor `min(k, 15)`.
proof fn lemma_scale_search(peak_value: int, s: int, k: int)
    requires
        0 <= k,
        0 <= s <= k,
        s <= 15,
        peak_value >= pow2(k as nat),
        k < 15 ==> peak_value < pow2((k + 1) as nat),
    ensures
        scale_factor_from(peak_value, s) == (if k < 15 {
            k
        } else {
            15
        }),
    decreases 15 - s,
{
    if s >= 15 {
    } else if peak_value < pow2((s + 1) as nat) {
        if s < k {
            if s + 1 < k {
                lemma_pow2_strictly_increases((s + 1) as nat, k as nat);
            }
        }
    } else {
        if s == k {
        } else {
            lemma_scale_search(peak_value, s + 1, k);
        }
    }
}

/// Sum over the first `blocks` blocks of the products of the samples of
/// channels `a` and `b` in subband `sb`.
pub open spec fn dot(subbands: SubbandFrame, a: int, b: int, sb: int, blocks: int) -> int
    decreases blocks,
{
    if blocks <= 0 {
        0
    } else {
        dot(subbands, a, b, sb, blocks - 1) + subbands[a][blocks - 1][sb] * subbands[b][blocks
            - 1][sb]
    }
}

/// The joint-stereo decision for one subband: the scale factors are within
/// 4 of each other, neither channel is silent, and the squared correlation
/// proxy reaches the quarter-scaled energy product.
pub open spec fn joint_worthwhile(
    subbands: SubbandFrame,
    sb: int,
    blocks: int,
    left_sf: int,
    right_sf: int,
) -> bool {
    let lr = dot(subbands, 0, 1, sb, blocks);
    let ll = dot(subbands, 0, 0, sb, blocks);
    let rr = dot(subbands, 1, 1, sb, blocks);
    &&& magnitude(left_sf - right_sf) <= 4
    &&& ll != 0
    &&& rr != 0
    &&& (lr / 4) * (lr / 4) >= (ll / 4) * (rr / 4)
}

/// Number of subbands that may be joined: all four, or the lower seven of
/// eight.
pub open spec fn join_limit(subbands: int) -> int {
    if subbands == 8 {
        7
    } else {
        subbands
    }
}

/// Whether subband `sb` of this frame is coded as mid/side.
pub open spec fn joined(
    subbands: SubbandFrame,
    scale_factors: SubbandTable,
    config: SbcConfig,
    sb: int,
) -> bool {
    &&& config.channel_mode == ChannelMode::JointStereo
    &&& 0 <= sb < join_limit(config.subbands.spec_count() as int)
    &&& joint_worthwhile(
        subbands,
        sb,
        config.block_length.spec_count() as int,
        scale_factors[0][sb] as int,
        scale_factors[1][sb] as int,
    )
}

/// The join flags over the first `upto` subbands: subband `sb` sets bit
/// `subbands - 1 - sb` when it is joined.
pub open spec fn join_mask(
    subbands: SubbandFrame,
    scale_factors: SubbandTable,
    config: SbcConfig,
    upto: int,
) -> u8
    decreases upto,
{
    if upto <= 0 {
        0
    } else {
        let rest = join_mask(subbands, scale_factors, config, upto - 1);
        if joined(subbands, scale_factors, config, upto - 1) {
            rest | (1u8 << ((config.subbands.spec_count() - upto) as u8))
        } else {
            rest
        }
    }
}

/// The sample at a cell after the joint-stereo stage: in a joined subband
/// the left channel carries mid `(L + R) / 2` and the right channel side
/// `(L - R) / 2`, both rounded toward minus infinity; all else is unchanged.
pub open spec fn joint_sample(
    subbands: SubbandFrame,
    scale_factors: SubbandTable,
    config: SbcConfig,
    ch: int,
    blk: int,
    sb: int,
) -> i32 {
    if joined(subbands, scale_factors, config, sb) && blk < config.block_length.spec_count() {
        let left = subbands[0][blk][sb] as int;
        let right = subbands[1][blk][sb] as int;
        if ch == 0 {
            ((left + right) / 2) as i32
        } else {
            ((left - right) / 2) as i32
        }
    } else {
        subbands[ch][blk][sb]
    }
}

/// The code of a sample: the sample is normalized by its scale level into
/// the signed 16-bit range (the quotient rounds toward zero), offset by
/// 32768, scaled to `bits` bits and clamped to `0..=2^bits - 1`.
pub open spec fn quantized_code(sample: int, bits: int, scale_level: int) -> int {
    let levels = pow2(bits as nat) - 1;
    let scaled = sample * 0x8000;
    let normalized = if scaled >= 0 {
        scaled / scale_level
    } else {
        -((-scaled) / scale_level)
    };
    let q = ((normalized + 0x8000) * levels) / 0x1_0000;
    if q < 0 {
        0
    } else if q > levels {
        levels
    } else {
        q
    }
}

/// A code fits the bits it was quantized to: it lies in `0..=2^bits - 1`.
pub proof fn quantized_code_in_range(sample: int, bits: int, scale_level: int)
    requires
        0 <= bits,
    ensures
        0 <= quantized_code(sample, bits, scale_level) <= pow2(bits as nat) - 1,
{
    lemma_pow2_pos(bits as nat);
}

/// Every scale level is `2^(scale_factor + 1)`.
pub proof fn scale_levels_are_powers()
    ensures
        forall|s: int| 0 <= s < 16 ==> #[trigger] SCALE_FACTOR_LEVELS[s] == pow2((s + 1) as nat),
{
    lemma2_to64();
}

proof fn lemma_dot_same_column(s1: SubbandFrame, s2: SubbandFrame, a: int, b: int, sb: int, blocks: int)
    requires
        0 <= blocks <= 16,
        0 <= a < 2,
        0 <= b < 2,
        0 <= sb < 8,
        forall|ch: int, blk: int|
            0 <= ch < 2 && 0 <= blk < blocks ==> #[trigger] s1[ch][blk][sb] == s2[ch][blk][sb],
    ensures
        dot(s1, a, b, sb, blocks) == dot(s2, a, b, sb, blocks),
    decreases blocks,
{
    if blocks > 0 {
        lemma_dot_same_column(s1, s2, a, b, sb, blocks - 1);
        assert(s1[a][blocks - 1][sb] == s2[a][blocks - 1][sb]);
        assert(s1[b][blocks - 1][sb] == s2[b][blocks - 1][sb]);
    }
}

proof fn lemma_dot_bounds(s: SubbandFrame, a: int, b: int, sb: int, blocks: int)
    requires
        0 <= blocks <= 16,
        0 <= a < 2,
        0 <= b < 2,
        0 <= sb < 8,
    ensures
        -blocks * 0x4000_0000_0000_0000 <= dot(s, a, b, sb, blocks) <= blocks
            * 0x4000_0000_0000_0000,
        a == b ==> dot(s, a, b, sb, blocks) >= 0,
    decreases blocks,
{
    if blocks > 0 {
        lemma_dot_bounds(s, a, b, sb, blocks - 1);
        let x = s[a][blocks - 1][sb] as int;
        let y = s[b][blocks - 1][sb] as int;
        assert(-0x4000_0000_0000_0000 <= x * y <= 0x4000_0000_0000_0000) by (nonlinear_arith)
            requires
                -0x8000_0000 <= x <= 0x7fff_ffff,
                -0x8000_0000 <= y <= 0x7fff_ffff,
        ;
        assert(x * x >= 0) by (nonlinear_arith);
    }
}

/// Quantizer for SBC encoding. It holds no state.
pub struct Quantizer {}

impl Quantizer {
    /// Create a new quantizer.
    pub fn new() -> (r: Self) {
        Quantizer {  }
    }

    /// Calculate the scale factor of every active channel/subband from the
    /// peak magnitude of its samples over the frame's blocks. Cells outside
    /// the active geometry get 0.
    pub fn calc_scale_factors(&self, subbands: &SubbandFrame, config: &SbcConfig) -> (sf:
        SubbandTable)
        ensures
            forall|ch: int, sb: int|
                0 <= ch < 2 && 0 <= sb < 8 ==> #[trigger] sf[ch][sb] == (if ch
                    < config.spec_channels() && sb < config.subbands.spec_count() {
                    scale_factor_for(
                        peak(*subbands, ch, sb, config.block_length.spec_count() as int),
                    )
                } else {
                    0
                }),
            forall|ch: int, sb: int| 0 <= ch < 2 && 0 <= sb < 8 ==> #[trigger] sf[ch][sb] <= 15,
    {
        let num_subbands: usize = config.subbands.count();
        let num_blocks: usize = config.block_length.count();
        let num_channels: usize = config.channels() as usize;

        let mut scale_factors: SubbandTable = [[0u8; 8]; 2];

        let mut ch: usize = 0;
        while ch < num_channels
            invariant
                ch <= num_channels <= 2,
                num_subbands == config.subbands.spec_count(),
                num_blocks == config.block_length.spec_count(),
                num_channels == config.spec_channels(),
                forall|c: int, s: int|
                    0 <= c < 2 && 0 <= s < 8 ==> #[trigger] scale_factors[c][s] == (if c < ch && s
                        < num_subbands {
                        scale_factor_for(peak(*subbands, c, s, num_blocks as int))
                    } else {
                        0
                    }),
                forall|c: int, s: int|
                    0 <= c < 2 && 0 <= s < 8 ==> #[trigger] scale_factors[c][s] <= 15,
            decreases num_channels - ch,
        {
            let mut sb: usize = 0;
            while sb < num_subbands
                invariant
                    ch < num_channels <= 2,
                    sb <= num_subbands <= 8,
                    num_blocks <= 16,
                    forall|c: int, s: int|
                        0 <= c < 2 && 0 <= s < 8 ==> #[trigger] scale_factors[c][s] == (if (c < ch
                            && s < num_subbands) || (c == ch && s < sb) {
                            scale_factor_for(peak(*subbands, c, s, num_blocks as int))
                        } else {
                            0
                        }),
                    forall|c: int, s: int|
                        0 <= c < 2 && 0 <= s < 8 ==> #[trigger] scale_factors[c][s] <= 15,
                decreases num_subbands - sb,
            {
                // The peak is tracked up to i32::MAX; one above it has the
                // same scale factor.
                let mut max_val: i32 = 0;
                let mut blk: usize = 0;
                while blk < num_blocks
                    invariant
                        ch < 2,
                        sb < 8,
                        blk <= num_blocks <= 16,
                        0 <= max_val,
                        max_val == peak(*subbands, ch as int, sb as int, blk as int) || (max_val
                            == i32::MAX && peak(*subbands, ch as int, sb as int, blk as int)
                            == 0x8000_0000),
                    decreases num_blocks - blk,
                {
                    let sample: i32 = subbands[ch][blk][sb];
                    let abs_val: i32 = if sample == i32::MIN {
                        i32::MAX
                    } else if sample < 0 {
                        -sample
                    } else {
                        sample
                    };
                    if abs_val > max_val {
                        max_val = abs_val;
                    }
                    blk += 1;
                }
                let sf: u8 = self.calc_single_scale_factor(max_val);
                proof {
                    let p = peak(*subbands, ch as int, sb as int, num_blocks as int);
                    if max_val != p {
                        lemma2_to64();
                        lemma_scale_search(max_val as int, 0, 30);
                        lemma_scale_search(p, 0, 31);
                    }
                    lemma_scale_search_range(p, 0);
                }
                scale_factors[ch][sb] = sf;
                sb += 1;
            }
            ch += 1;
        }
        scale_factors
    }

    /// Calculate the scale factor of a single peak value. The argument is
    /// read as an unsigned magnitude.
    pub fn calc_single_scale_factor(&self, max_val: i32) -> (r: u8)
        ensures
            r == scale_factor_for((max_val as u32) as int),
            r <= 15,
    {
        if max_val == 0 {
            assert(pow2(1) == 2) by {
                lemma2_to64();
            }
            return 0;
        }
        let value: u32 = #[verifier::truncate]
        (max_val as u32);
        assert(value != 0) by {
            assert(max_val != 0i32 ==> (max_val as u32) != 0u32) by (bit_vector);
        }

        // The highest set bit decides.
        let bits_needed: u32 = 32 - value.leading_zeros();
        let sf: u8 = if bits_needed > 1 {
            (bits_needed - 1) as u8
        } else {
            0
        };
        proof {
            axiom_u32_leading_zeros(value);
            let k: u32 = (bits_needed - 1) as u32;
            assert(k == 31 - u32_leading_zeros(value));
            assert(value >= (1u32 << k)) by (bit_vector)
                requires
                    k <= 31,
                    (value >> k) & 1u32 != 0u32,
            ;
            assert(k < 31 ==> value < (1u32 << ((k + 1) as u32))) by (bit_vector)
                requires
                    k <= 31,
                    value >> ((k + 1) as u32) == 0,
            ;
            lemma2_to64();
            lemma_pow2_strictly_increases(k as nat, 32);
            lemma_u32_shl_is_mul(1u32, k);
            if k < 31 {
                lemma_pow2_strictly_increases((k + 1) as nat, 32);
                lemma_u32_shl_is_mul(1u32, (k + 1) as u32);
            }
            lemma_scale_search(value as int, 0, k as int);
        }
        if sf > 15 {
            15
        } else {
            sf
        }
    }

    /// Process joint stereo encoding.
    ///
    /// In joint-stereo mode every eligible subband that passes the
    /// correlation test is rewritten as mid/side and recorded in the join
    /// flags. In any other mode the samples come back unchanged with no
    /// flag set.
    pub fn joint_stereo_process(
        &self,
        subbands: SubbandFrame,
        scale_factors: &SubbandTable,
        config: &SbcConfig,
    ) -> (result: (SubbandFrame, u8))
        ensures
            forall|ch: int, blk: int, sb: int|
                0 <= ch < 2 && 0 <= blk < 16 && 0 <= sb < 8 ==> #[trigger] result.0[ch][blk][sb]
                    == joint_sample(subbands, *scale_factors, *config, ch, blk, sb),
            result.1 == join_mask(
                subbands,
                *scale_factors,
                *config,
                join_limit(config.subbands.spec_count() as int),
            ),
    {
        let num_subbands: usize = config.subbands.count();
        let num_blocks: usize = config.block_length.count();
        let limit: usize = if num_subbands == 8 {
            num_subbands - 1
        } else {
            num_subbands
        };
        if config.channel_mode != ChannelMode::JointStereo {
            proof {
                lemma_join_mask_off(subbands, *scale_factors, *config, limit as int);
            }
            return (subbands, 0);
        }
        let mut out: SubbandFrame = subbands;
        let mut join_flags: u8 = 0;

        let mut sb: usize = 0;
        while sb < limit
            invariant
                sb <= limit,
                limit == join_limit(num_subbands as int),
                num_subbands == config.subbands.spec_count(),
                num_blocks == config.block_length.spec_count(),
                config.channel_mode == ChannelMode::JointStereo,
                join_flags == join_mask(subbands, *scale_factors, *config, sb as int),
                forall|ch: int, blk: int, s: int|
                    0 <= ch < 2 && 0 <= blk < 16 && 0 <= s < 8 ==> #[trigger] out[ch][blk][s] == (
                    if s < sb {
                        joint_sample(subbands, *scale_factors, *config, ch, blk, s)
                    } else {
                        subbands[ch][blk][s]
                    }),
            decreases limit - sb,
        {
            let left_sf: u8 = scale_factors[0][sb];
            let right_sf: u8 = scale_factors[1][sb];
            let use_joint: bool = self.should_use_joint(&out, sb, num_blocks, left_sf, right_sf);
            proof {
                lemma_dot_same_column(out, subbands, 0, 1, sb as int, num_blocks as int);
                lemma_dot_same_column(out, subbands, 0, 0, sb as int, num_blocks as int);
                lemma_dot_same_column(out, subbands, 1, 1, sb as int, num_blocks as int);
                assert(use_joint == joined(subbands, *scale_factors, *config, sb as int));
            }
            if use_joint {
                join_flags = join_flags | (1u8 << ((num_subbands - 1 - sb) as u8));

                let mut blk: usize = 0;
                while blk < num_blocks
                    invariant
                        blk <= num_blocks <= 16,
                        sb < limit <= 8,
                        num_blocks == config.block_length.spec_count(),
                        joined(subbands, *scale_factors, *config, sb as int),
                        forall|ch: int, b: int, s: int|
                            0 <= ch < 2 && 0 <= b < 16 && 0 <= s < 8 ==> #[trigger] out[ch][b][s]
                                == (if s < sb || (s == sb && b < blk) {
                                joint_sample(subbands, *scale_factors, *config, ch, b, s)
                            } else {
                                subbands[ch][b][s]
                            }),
                    decreases num_blocks - blk,
                {
                    let left: i64 = out[0][blk][sb] as i64;
                    let right: i64 = out[1][blk][sb] as i64;
                    let sum: i64 = left + right;
                    let diff: i64 = left - right;
                    assert((sum >> 1) == sum / 2) by (bit_vector);
                    assert((diff >> 1) == diff / 2) by (bit_vector);
                    out[0][blk][sb] = (sum >> 1) as i32;
                    out[1][blk][sb] = (diff >> 1) as i32;
                    blk += 1;
                }
            }
            sb += 1;
        }
        (out, join_flags)
    }

    /// Determine if joint stereo should be used for subband `sb`, from its
    /// samples over the first `num_blocks` blocks and the two channels'
    /// scale factors.
    pub fn should_use_joint(
        &self,
        subbands: &SubbandFrame,
        sb: usize,
        num_blocks: usize,
        left_sf: u8,
        right_sf: u8,
    ) -> (r: bool)
        requires
            sb < 8,
            num_blocks <= 16,
        ensures
            r == joint_worthwhile(
                *subbands,
                sb as int,
                num_blocks as int,
                left_sf as int,
                right_sf as int,
            ),
    {
        let sf_diff: u8 = if left_sf > right_sf {
            left_sf - right_sf
        } else {
            right_sf - left_sf
        };
        if sf_diff > 4 {
            return false;
        }
        // The sums of products of 32-bit samples need more than 64 bits.

        let mut sum_product: i128 = 0;
        let mut sum_left_sq: i128 = 0;
        let mut sum_right_sq: i128 = 0;

        let mut blk: usize = 0;
        while blk < num_blocks
            invariant
                blk <= num_blocks <= 16,
                sb < 8,
                sum_product == dot(*subbands, 0, 1, sb as int, blk as int),
                sum_left_sq == dot(*subbands, 0, 0, sb as int, blk as int),
                sum_right_sq == dot(*subbands, 1, 1, sb as int, blk as int),
            decreases num_blocks - blk,
        {
            let left: i128 = subbands[0][blk][sb] as i128;
            let right: i128 = subbands[1][blk][sb] as i128;
            proof {
                lemma_dot_bounds(*subbands, 0, 1, sb as int, blk as int);
                lemma_dot_bounds(*subbands, 0, 0, sb as int, blk as int);
                lemma_dot_bounds(*subbands, 1, 1, sb as int, blk as int);
                lemma_dot_bounds(*subbands, 0, 1, sb as int, blk + 1);
                lemma_dot_bounds(*subbands, 0, 0, sb as int, blk + 1);
                lemma_dot_bounds(*subbands, 1, 1, sb as int, blk + 1);
                assert(-0x4000_0000_0000_0000 <= left * right <= 0x4000_0000_0000_0000
                    && -0x4000_0000_0000_0000 <= left * left <= 0x4000_0000_0000_0000
                    && -0x4000_0000_0000_0000 <= right * right <= 0x4000_0000_0000_0000)
                    by (nonlinear_arith)
                    requires
                        -0x8000_0000 <= left <= 0x7fff_ffff,
                        -0x8000_0000 <= right <= 0x7fff_ffff,
                ;
            }
            sum_product = sum_product + left * right;
            sum_left_sq = sum_left_sq + left * left;
            sum_right_sq = sum_right_sq + right * right;
            blk += 1;
        }
        proof {
            lemma_dot_bounds(*subbands, 0, 1, sb as int, num_blocks as int);
            lemma_dot_bounds(*subbands, 0, 0, sb as int, num_blocks as int);
            lemma_dot_bounds(*subbands, 1, 1, sb as int, num_blocks as int);
        }

        if sum_left_sq == 0 || sum_right_sq == 0 {
            return false;
        }
        assert((sum_left_sq >> 2) == sum_left_sq / 4) by (bit_vector);
        assert((sum_right_sq >> 2) == sum_right_sq / 4) by (bit_vector);
        assert((sum_product >> 2) == sum_product / 4) by (bit_vector);
        let left_energy: u128 = (sum_left_sq >> 2) as u128;
        let right_energy: u128 = (sum_right_sq >> 2) as u128;
        let quarter: i128 = sum_product >> 2;
        let proxy: u128 = if quarter < 0 {
            (-quarter) as u128
        } else {
            quarter as u128
        };
        assert(proxy * proxy == quarter * quarter) by (nonlinear_arith)
            requires
                proxy == quarter || proxy == -quarter,
        ;

        // Either product may reach 2^128 and no further.
        let threshold: Option<u128> = left_energy.checked_mul(right_energy);
        let product_sq: Option<u128> = proxy.checked_mul(proxy);
        proof {
            assert(left_energy * right_energy <= 0x1_0000_0000_0000_0000 * 0x1_0000_0000_0000_0000)
                by (nonlinear_arith)
                requires
                    left_energy <= 0x1_0000_0000_0000_0000,
                    right_energy <= 0x1_0000_0000_0000_0000,
            ;
            assert(proxy * proxy <= 0x1_0000_0000_0000_0000 * 0x1_0000_0000_0000_0000)
                by (nonlinear_arith)
                requires
                    proxy <= 0x1_0000_0000_0000_0000,
            ;
        }
        match (product_sq, threshold) {
            (Some(p), Some(t)) => p >= t,
            (None, _) => true,
            (Some(_), None) => false,
        }
    }

    /// Quantize the subband samples of every active cell that has bits
    /// allocated. Every other cell of the result is zero.
    pub fn quantize(
        &self,
        subbands: &SubbandFrame,
        bits: &SubbandTable,
        scale_factors: &SubbandTable,
        config: &SbcConfig,
    ) -> (quantized: QuantizedFrame)
        requires
            forall|ch: int, sb: int|
                0 <= ch < config.spec_channels() && 0 <= sb < config.subbands.spec_count()
                    && bits[ch][sb] > 0 ==> bits[ch][sb] <= 16 && scale_factors[ch][sb] <= 15,
        ensures
            forall|ch: int, blk: int, sb: int|
                0 <= ch < 2 && 0 <= blk < 16 && 0 <= sb < 8 ==> #[trigger] quantized[ch][blk][sb]
                    == (if ch < config.spec_channels() && blk < config.block_length.spec_count()
                    && sb < config.subbands.spec_count() && bits[ch][sb] > 0 {
                    quantized_code(
                        subbands[ch][blk][sb] as int,
                        bits[ch][sb] as int,
                        SCALE_FACTOR_LEVELS[scale_factors[ch][sb] as int] as int,
                    )
                } else {
                    0
                }),
    {
        let num_subbands: usize = config.subbands.count();
        let num_blocks: usize = config.block_length.count();
        let num_channels: usize = config.channels() as usize;

        let mut quantized: QuantizedFrame = [[[0u16; 8]; 16]; 2];

        let mut ch: usize = 0;
        while ch < num_channels
            invariant
                ch <= num_channels <= 2,
                num_subbands == config.subbands.spec_count(),
                num_blocks == config.block_length.spec_count(),
                num_channels == config.spec_channels(),
                forall|c: int, s: int|
                    0 <= c < num_channels && 0 <= s < num_subbands && bits[c][s] > 0 ==> bits[c][s]
                        <= 16 && scale_factors[c][s] <= 15,
                forall|c: int, b: int, s: int|
                    0 <= c < 2 && 0 <= b < 16 && 0 <= s < 8 ==> #[trigger] quantized[c][b][s] == (
                    if c < ch && b < num_blocks && s < num_subbands && bits[c][s] > 0 {
                        quantized_code(
                            subbands[c][b][s] as int,
                            bits[c][s] as int,
                            SCALE_FACTOR_LEVELS[scale_factors[c][s] as int] as int,
                        )
                    } else {
                        0
                    }),
            decreases num_channels - ch,
        {
            let mut sb: usize = 0;
            while sb < num_subbands
                invariant
                    ch < num_channels <= 2,
                    sb <= num_subbands <= 8,
                    num_blocks <= 16,
                    forall|c: int, s: int|
                        0 <= c < num_channels && 0 <= s < num_subbands && bits[c][s] > 0
                            ==> bits[c][s] <= 16 && scale_factors[c][s] <= 15,
                    forall|c: int, b: int, s: int|
                        0 <= c < 2 && 0 <= b < 16 && 0 <= s < 8 ==> #[trigger] quantized[c][b][s]
                            == (if (c < ch || (c == ch && s < sb)) && b < num_blocks && s
                            < num_subbands && bits[c][s] > 0 {
                            quantized_code(
                                subbands[c][b][s] as int,
                                bits[c][s] as int,
                                SCALE_FACTOR_LEVELS[scale_factors[c][s] as int] as int,
                            )
                        } else {
                            0
                        }),
                decreases num_subbands - sb,
            {
                let bit_count: u8 = bits[ch][sb];
                if bit_count > 0 {
                    let sf: usize = scale_factors[ch][sb] as usize;
                    let levels: i32 = SCALE_FACTOR_LEVELS[sf];

                    let mut blk: usize = 0;
                    while blk < num_blocks
                        invariant
                            ch < 2,
                            sb < num_subbands <= 8,
                            blk <= num_blocks <= 16,
                            bit_count == bits[ch as int][sb as int],
                            0 < bit_count <= 16,
                            sf == scale_factors[ch as int][sb as int],
                            sf <= 15,
                            levels == SCALE_FACTOR_LEVELS[sf as int],
                            forall|c: int, b: int, s: int|
                                0 <= c < 2 && 0 <= b < 16 && 0 <= s < 8
                                    ==> #[trigger] quantized[c][b][s] == (if (c < ch || (c == ch
                                    && s < sb) || (c == ch && s == sb && b < blk)) && b
                                    < num_blocks && s < num_subbands && bits[c][s] > 0 {
                                    quantized_code(
                                        subbands[c][b][s] as int,
                                        bits[c][s] as int,
                                        SCALE_FACTOR_LEVELS[scale_factors[c][s] as int] as int,
                                    )
                                } else {
                                    0
                                }),
                        decreases num_blocks - blk,
                    {
                        let sample: i32 = subbands[ch][blk][sb];
                        let code: u16 = self.quantize_sample(sample, bit_count, levels);
                        quantized[ch][blk][sb] = code;
                        blk += 1;
                    }
                }
                sb += 1;
            }
            ch += 1;
        }
        quantized
    }

    /// Quantize a single sample to `bits` bits against its scale level.
    pub fn quantize_sample(&self, sample: i32, bits: u8, scale_level: i32) -> (r: u16)
        requires
            0 < bits <= 16,
            scale_level > 0,
        ensures
            r == quantized_code(sample as int, bits as int, scale_level as int),
            r <= pow2(bits as nat) - 1,
    {
        proof {
            lemma2_to64();
            lemma_pow2_strictly_increases(bits as nat, 17);
            lemma_u32_shl_is_mul(1u32, bits as u32);
        }
        let levels: u32 = (1u32 << bits) - 1;

        let wide: i64 = sample as i64;
        assert((wide << 15) == wide * 0x8000) by (bit_vector)
            requires
                -0x8000_0000 <= wide <= 0x7fff_ffff,
        ;
        let scaled: i64 = wide << 15;
        let normalized: i64 = scaled / (scale_level as i64);
        proof {
            let d = scale_level as int;
            let n = scaled as int;
            if n >= 0 {
                assert(0 <= n / d <= n) by (nonlinear_arith)
                    requires
                        n >= 0,
                        d >= 1,
                ;
            } else {
                assert(0 <= (-n) / d <= -n) by (nonlinear_arith)
                    requires
                        -n >= 0,
                        d >= 1,
                ;
            }
        }
        let offset: i64 = normalized + 32768;
        assert(-0x4000_0000_0000_0000 <= offset * levels <= 0x4000_0000_0000_0000)
            by (nonlinear_arith)
            requires
                -0x4000_0000_0000 <= offset <= 0x4000_0001_0000,
                0 <= levels <= 0xffff,
        ;
        let product: i64 = offset * (levels as i64);
        assert((product >> 16) == product / 0x1_0000) by (bit_vector);
        let quantized: i64 = product >> 16;

        if quantized < 0 {
            0
        } else if quantized > levels as i64 {
            levels as u16
        } else {
            quantized as u16
        }
    }
}

/// Outside joint-stereo mode no join flag is set.
pub proof fn lemma_join_mask_off(
    subbands: SubbandFrame,
    scale_factors: SubbandTable,
    config: SbcConfig,
    upto: int,
)
    requires
        config.channel_mode != ChannelMode::JointStereo,
    ensures
        join_mask(subbands, scale_factors, config, upto) == 0,
    decreases upto,
{
    if upto > 0 {
        lemma_join_mask_off(subbands, scale_factors, config, upto - 1);
    }
}

impl Default for Quantizer {
    fn default() -> (r: Self) {
        Quantizer::new()
    }
}

} // verus!
