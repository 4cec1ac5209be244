//! What the bit allocation guarantees: the budget it keeps and the range of
//! a cell's bits.

use vstd::prelude::*;
use crate::sbc_encoder::bitalloc::{
    Budget, Fill, allocation, bit_needs, cell_active, distributed, distribution, fill_pass,
    fill_round, fill_step, join_adjust, join_applies, max_need, slice_demands, slice_grant,
    slice_pass, sum_cells,
};
use crate::sbc_encoder::config::{AllocationMethod, ChannelMode, SbcConfig};
use crate::sbc_encoder::quantizer::SubbandTable;

verus! {

/// Where `c` is the cell-wise sum of `a` and `b`, its total is the sum of
/// their totals.
pub proof fn lemma_sum_pointwise(a: Seq<int>, b: Seq<int>, c: Seq<int>, upto: int)
    requires
        forall|i: int| 0 <= i < upto ==> #[trigger] c[i] == a[i] + b[i],
    ensures
        sum_cells(c, upto) == sum_cells(a, upto) + sum_cells(b, upto),
    decreases upto,
{
    if upto > 0 {
        lemma_sum_pointwise(a, b, c, upto - 1);
    }
}

/// A sequence that is cell-wise at most another has at most its total.
pub proof fn lemma_sum_monotone(a: Seq<int>, b: Seq<int>, upto: int)
    requires
        forall|i: int| 0 <= i < upto ==> #[trigger] a[i] <= b[i],
    ensures
        sum_cells(a, upto) <= sum_cells(b, upto),
    decreases upto,
{
    if upto > 0 {
        lemma_sum_monotone(a, b, upto - 1);
    }
}

/// Changing one cell changes the total by the difference.
pub proof fn lemma_sum_update(s: Seq<int>, idx: int, v: int, upto: int)
    requires
        0 <= idx < s.len(),
        0 <= upto <= s.len(),
    ensures
        sum_cells(s.update(idx, v), upto) == sum_cells(s, upto) + (if idx < upto {
            v - s[idx]
        } else {
            0
        }),
    decreases upto,
{
    if upto > 0 {
        lemma_sum_update(s, idx, v, upto - 1);
    }
}

/// The bits are a table of 16 cells, none negative, none outside the active
/// geometry, and each at most 16 or at most one above its need.
pub open spec fn within_caps(needs: Seq<int>, channels: int, subbands: int, bits: Seq<int>) -> bool {
    &&& bits.len() == 16
    &&& forall|i: int|
        0 <= i < 16 ==> {
            &&& 0 <= #[trigger] bits[i]
            &&& (!cell_active(i, channels, subbands) ==> bits[i] == 0)
            &&& (bits[i] <= 16 || bits[i] <= needs[i] + 1)
        }
}

/// The bits granted and the budget left add up to the bitpool.
pub open spec fn balanced(state: Budget, pool: int) -> bool {
    &&& state.bits.len() == 16
    &&& state.remaining >= 0
    &&& sum_cells(state.bits, 16) + state.remaining == pool
}

/// The shape of the bits while the first pass stands at `bitslice`: a cell
/// whose need is above the slice has one bit more than the distance, every
/// other cell has none.
pub open spec fn sliced_to(
    needs: Seq<int>,
    channels: int,
    subbands: int,
    bits: Seq<int>,
    bitslice: int,
) -> bool {
    &&& bits.len() == 16
    &&& forall|i: int|
        0 <= i < 16 ==> #[trigger] bits[i] == (if cell_active(i, channels, subbands) && needs[i]
            > bitslice {
            needs[i] - bitslice + 1
        } else {
            0
        })
}

proof fn lemma_slice_pass(
    needs: Seq<int>,
    channels: int,
    subbands: int,
    state: Budget,
    bitslice: int,
    rounds: int,
    pool: int,
)
    requires
        needs.len() == 16,
        balanced(state, pool),
        sliced_to(needs, channels, subbands, state.bits, bitslice),
        bitslice >= 0 || forall|i: int| 0 <= i < 16 ==> #[trigger] state.bits[i] == 0,
    ensures
        balanced(slice_pass(needs, channels, subbands, state, bitslice, rounds), pool),
        within_caps(
            needs,
            channels,
            subbands,
            slice_pass(needs, channels, subbands, state, bitslice, rounds).bits,
        ),
    decreases rounds,
{
    if rounds <= 0 || bitslice <= 0 || state.remaining <= 0 {
    } else {
        let slice = bitslice - 1;
        let demands = slice_demands(needs, state.bits, channels, subbands, slice);
        let cost = sum_cells(demands, 16);
        if cost <= state.remaining {
            let granted = slice_grant(needs, state.bits, channels, subbands, slice);
            lemma_sum_pointwise(state.bits, demands, granted, 16);
            let next = Budget { bits: granted, remaining: state.remaining - cost };
            lemma_slice_pass(needs, channels, subbands, next, slice, rounds - 1, pool);
        }
    }
}

proof fn lemma_fill_step(
    needs: Seq<int>,
    channels: int,
    subbands: int,
    st: Fill,
    idx: int,
    pool: int,
)
    requires
        0 <= idx < 16,
        within_caps(needs, channels, subbands, st.bits),
        balanced(Budget { bits: st.bits, remaining: st.remaining }, pool),
    ensures
        within_caps(needs, channels, subbands, fill_step(needs, channels, subbands, st, idx).bits),
        balanced(
            Budget {
                bits: fill_step(needs, channels, subbands, st, idx).bits,
                remaining: fill_step(needs, channels, subbands, st, idx).remaining,
            },
            pool,
        ),
{
    lemma_sum_update(st.bits, idx, 2, 16);
    lemma_sum_update(st.bits, idx, st.bits[idx] + 1, 16);
}

proof fn lemma_fill_round(
    needs: Seq<int>,
    channels: int,
    subbands: int,
    st: Fill,
    upto: int,
    pool: int,
)
    requires
        0 <= upto <= 16,
        within_caps(needs, channels, subbands, st.bits),
        balanced(Budget { bits: st.bits, remaining: st.remaining }, pool),
    ensures
        within_caps(needs, channels, subbands, fill_round(needs, channels, subbands, st, upto).bits),
        balanced(
            Budget {
                bits: fill_round(needs, channels, subbands, st, upto).bits,
                remaining: fill_round(needs, channels, subbands, st, upto).remaining,
            },
            pool,
        ),
    decreases upto,
{
    if upto > 0 {
        lemma_fill_round(needs, channels, subbands, st, upto - 1, pool);
        lemma_fill_step(
            needs,
            channels,
            subbands,
            fill_round(needs, channels, subbands, st, upto - 1),
            upto - 1,
            pool,
        );
    }
}

proof fn lemma_fill_pass(
    needs: Seq<int>,
    channels: int,
    subbands: int,
    state: Budget,
    rounds: int,
    pool: int,
)
    requires
        within_caps(needs, channels, subbands, state.bits),
        balanced(state, pool),
    ensures
        within_caps(needs, channels, subbands, fill_pass(needs, channels, subbands, state, rounds).bits),
        balanced(fill_pass(needs, channels, subbands, state, rounds), pool),
    decreases rounds,
{
    if rounds <= 0 || state.remaining <= 0 {
    } else {
        let st = Fill { bits: state.bits, remaining: state.remaining, granted: false };
        lemma_fill_round(needs, channels, subbands, st, 16, pool);
        let r = fill_round(needs, channels, subbands, st, 16);
        if r.granted {
            lemma_fill_pass(
                needs,
                channels,
                subbands,
                Budget { bits: r.bits, remaining: r.remaining },
                rounds - 1,
                pool,
            );
        }
    }
}

proof fn lemma_max_need_covers(needs: Seq<int>, channels: int, subbands: int, upto: int)
    requires
        0 <= upto <= 16,
    ensures
        forall|i: int|
            0 <= i < upto && cell_active(i, channels, subbands) ==> #[trigger] needs[i] <= max_need(
                needs,
                channels,
                subbands,
                upto,
            ),
    decreases upto,
{
    if upto > 0 {
        lemma_max_need_covers(needs, channels, subbands, upto - 1);
    }
}

/// The two passes never spend more than the bitpool: the bits they grant
/// and the budget they leave add up to it. No cell gets a negative count or
/// lies outside the geometry, and a cell has more than 16 bits only where
/// its need is 16 or more (then at most one above the need).
pub proof fn distributed_within_budget(needs: Seq<int>, config: SbcConfig)
    requires
        needs.len() == 16,
    ensures
        balanced(distributed(needs, config), config.bitpool as int),
        sum_cells(distributed(needs, config).bits, 16) <= config.bitpool,
        within_caps(
            needs,
            config.spec_channels() as int,
            config.subbands.spec_count() as int,
            distributed(needs, config).bits,
        ),
{
    let channels = config.spec_channels() as int;
    let subbands = config.subbands.spec_count() as int;
    let pool = config.bitpool as int;
    let start = Budget { bits: Seq::new(16, |i: int| 0), remaining: pool };
    let top = max_need(needs, channels, subbands, 16);
    lemma_max_need_covers(needs, channels, subbands, 16);
    lemma_sum_monotone(start.bits, start.bits, 16);
    assert(sum_cells(start.bits, 16) == 0) by {
        lemma_sum_pointwise(start.bits, start.bits, start.bits, 16);
    }
    lemma_slice_pass(needs, channels, subbands, start, top + 1, 64, pool);
    let sliced = slice_pass(needs, channels, subbands, start, top + 1, 64);
    lemma_fill_pass(needs, channels, subbands, sliced, 256, pool);
}

/// The total over a table of each subband's two cells taken together is
/// twice the table's total.
proof fn lemma_sum_pairs(bits: Seq<int>, pairs: Seq<int>)
    requires
        bits.len() == 16,
        pairs.len() == 16,
        forall|i: int| 0 <= i < 16 ==> #[trigger] pairs[i] == bits[i % 8] + bits[8 + i % 8],
    ensures
        sum_cells(pairs, 16) == 2 * sum_cells(bits, 16),
{
    reveal_with_fuel(sum_cells, 17);
    assert(pairs[0] == bits[0] + bits[8]);
    assert(pairs[1] == bits[1] + bits[9]);
    assert(pairs[2] == bits[2] + bits[10]);
    assert(pairs[3] == bits[3] + bits[11]);
    assert(pairs[4] == bits[4] + bits[12]);
    assert(pairs[5] == bits[5] + bits[13]);
    assert(pairs[6] == bits[6] + bits[14]);
    assert(pairs[7] == bits[7] + bits[15]);
    assert(pairs[8] == bits[0] + bits[8]);
    assert(pairs[9] == bits[1] + bits[9]);
    assert(pairs[10] == bits[2] + bits[10]);
    assert(pairs[11] == bits[3] + bits[11]);
    assert(pairs[12] == bits[4] + bits[12]);
    assert(pairs[13] == bits[5] + bits[13]);
    assert(pairs[14] == bits[6] + bits[14]);
    assert(pairs[15] == bits[7] + bits[15]);
}

/// The total of the allocated bits is at most the bitpool where no subband
/// is joined, and at most twice the bitpool in any case: a joined subband
/// gives both channels the larger of their two allocations, which the
/// budget did not count.
pub proof fn distribution_total(needs: Seq<int>, config: SbcConfig, join_flags: u8)
    requires
        needs.len() == 16,
    ensures
        sum_cells(distribution(needs, config, join_flags), 16) <= 2 * config.bitpool,
        (forall|sb: int| 0 <= sb < 8 ==> !join_applies(config, join_flags, sb)) ==> sum_cells(
            distribution(needs, config, join_flags),
            16,
        ) <= config.bitpool,
{
    distributed_within_budget(needs, config);
    let bits = distributed(needs, config).bits;
    let adjusted = join_adjust(bits, config, join_flags);
    let pairs = Seq::new(16, |i: int| bits[i % 8] + bits[8 + i % 8]);
    lemma_sum_pairs(bits, pairs);
    assert forall|i: int| 0 <= i < 16 implies #[trigger] adjusted[i] <= pairs[i] by {
        assert(bits[i % 8] >= 0 && bits[8 + i % 8] >= 0);
        assert(i == i % 8 || i == 8 + i % 8);
    }
    lemma_sum_monotone(adjusted, pairs, 16);
    if forall|sb: int| 0 <= sb < 8 ==> !join_applies(config, join_flags, sb) {
        assert forall|i: int| 0 <= i < 16 implies #[trigger] adjusted[i] <= bits[i] by {
            assert(!join_applies(config, join_flags, i % 8));
        }
        lemma_sum_monotone(adjusted, bits, 16);
    }
}

/// Where no active cell needs more than 15 bits, every cell of the
/// allocation is within 0 to 16 bits.
pub proof fn distribution_cell_range(needs: Seq<int>, config: SbcConfig, join_flags: u8)
    requires
        needs.len() == 16,
        forall|i: int|
            0 <= i < 16 && cell_active(
                i,
                config.spec_channels() as int,
                config.subbands.spec_count() as int,
            ) ==> #[trigger] needs[i] <= 15,
    ensures
        forall|i: int| 0 <= i < 16 ==> 0 <= #[trigger] distribution(needs, config, join_flags)[i] <= 16,
{
    distributed_within_budget(needs, config);
    let bits = distributed(needs, config).bits;
    assert forall|i: int| 0 <= i < 16 implies 0 <= #[trigger] bits[i] <= 16 by {
        if !cell_active(i, config.spec_channels() as int, config.subbands.spec_count() as int) {
            assert(bits[i] == 0);
        }
    }
    assert forall|i: int| 0 <= i < 16 implies 0 <= #[trigger] distribution(
        needs,
        config,
        join_flags,
    )[i] <= 16 by {
        assert(0 <= bits[i % 8] <= 16);
        assert(0 <= bits[8 + i % 8] <= 16);
    }
}

/// With SNR allocation and scale factors within 0 to 15, every cell of a
/// frame's allocation is within 0 to 16 bits.
pub proof fn snr_allocation_cell_range(scale_factors: SubbandTable, config: SbcConfig, join_flags: u8)
    requires
        config.allocation_method == AllocationMethod::Snr,
        forall|ch: int, sb: int| 0 <= ch < 2 && 0 <= sb < 8 ==> scale_factors[ch][sb] <= 15,
    ensures
        forall|i: int|
            0 <= i < 16 ==> 0 <= #[trigger] allocation(scale_factors, config, join_flags)[i] <= 16,
{
    let needs = bit_needs(scale_factors, config);
    assert forall|i: int|
        0 <= i < 16 && cell_active(
            i,
            config.spec_channels() as int,
            config.subbands.spec_count() as int,
        ) implies #[trigger] needs[i] <= 15 by {
        assert(scale_factors[i / 8][i % 8] <= 15);
    }
    distribution_cell_range(needs, config, join_flags);
}

/// The total of a frame's allocation is at most the bitpool in every mode
/// but joint stereo, and in joint stereo where no subband is joined.
pub proof fn allocation_total(scale_factors: SubbandTable, config: SbcConfig, join_flags: u8)
    ensures
        sum_cells(allocation(scale_factors, config, join_flags), 16) <= 2 * config.bitpool,
        config.channel_mode != ChannelMode::JointStereo || join_flags == 0 ==> sum_cells(
            allocation(scale_factors, config, join_flags),
            16,
        ) <= config.bitpool,
{
    let needs = bit_needs(scale_factors, config);
    distribution_total(needs, config, join_flags);
    if join_flags == 0 {
        assert forall|sb: int| 0 <= sb < 8 implies !join_applies(config, join_flags, sb) by {
            let shift = (config.subbands.spec_count() - 1 - sb) as u32;
            assert((0u8 >> shift) & 1 != 1) by (bit_vector);
        }
    }
}

} // verus!
