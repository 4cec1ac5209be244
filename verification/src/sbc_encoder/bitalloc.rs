//! Bit allocation.
//!
//! Distributes the bitpool over the channel/subband cells of a frame. The
//! SNR and loudness methods differ only in the bit need they assign to a
//! cell; the distribution that follows is shared.
//!
//! A table `[channel][subband]` is modelled as a sequence of 16 cells, cell
//! `8 * channel + subband`, visited in that order.

use vstd::prelude::*;
use crate::sbc_encoder::config::{AllocationMethod, ChannelMode, SbcConfig};
use crate::sbc_encoder::quantizer::SubbandTable;
use crate::sbc_encoder::tables::{LOUDNESS_OFFSET_4, LOUDNESS_OFFSET_8};

verus! {

/// Bit needs of one frame: `[channel][subband]`.
pub type NeedTable = [[i32; 8]; 2];

/// Upper bound on the number of slices the first pass descends.
pub const MAX_ITERATIONS: usize = 64;

/// Upper bound on the number of rounds of the second pass.
pub const MAX_REMAINING_ITERATIONS: usize = 256;

/// Whether cell `idx` belongs to the active geometry.
pub open spec fn cell_active(idx: int, channels: int, subbands: int) -> bool {
    0 <= idx < 16 && idx / 8 < channels && idx % 8 < subbands
}

/// The cells of a table of bytes.
pub open spec fn table_cells(t: SubbandTable) -> Seq<int> {
    Seq::new(16, |i: int| t[i / 8][i % 8] as int)
}

/// The cells of a table of bit needs.
pub open spec fn need_cells(t: NeedTable) -> Seq<int> {
    Seq::new(16, |i: int| t[i / 8][i % 8] as int)
}

/// Sum of the first `upto` cells.
pub open spec fn sum_cells(s: Seq<int>, upto: int) -> int
    decreases upto,
{
    if upto <= 0 {
        0
    } else {
        sum_cells(s, upto - 1) + s[upto - 1]
    }
}

/// The psychoacoustic offset of a subband at the configured sampling
/// frequency and subband count.
pub open spec fn loudness_offset(config: SbcConfig, sb: int) -> int {
    let row = config.sampling_frequency.spec_header_bits() as int;
    if config.subbands.spec_count() == 8 {
        LOUDNESS_OFFSET_8[row][sb] as int
    } else {
        LOUDNESS_OFFSET_4[row][sb] as int
    }
}

/// The bit need of a cell with scale factor `sf` in subband `sb`.
///
/// SNR: the scale factor itself. Loudness: -5 for a silent cell; otherwise
/// the scale factor less the offset, halved (toward zero) when that is not
/// positive.
pub open spec fn bit_need(config: SbcConfig, sb: int, sf: int) -> int {
    match config.allocation_method {
        AllocationMethod::Snr => sf,
        AllocationMethod::Loudness => {
            if sf == 0 {
                -5
            } else {
                let d = sf - loudness_offset(config, sb);
                if d > 0 {
                    d
                } else {
                    -((-d) / 2)
                }
            }
        },
    }
}

/// The bit needs of a frame's cells; cells outside the geometry need 0.
pub open spec fn bit_needs(scale_factors: SubbandTable, config: SbcConfig) -> Seq<int> {
    Seq::new(
        16,
        |i: int|
            if cell_active(i, config.spec_channels() as int, config.subbands.spec_count() as int) {
                bit_need(config, i % 8, scale_factors[i / 8][i % 8] as int)
            } else {
                0
            },
    )
}

/// The largest need among the active cells below `upto`.
pub open spec fn max_need(needs: Seq<int>, channels: int, subbands: int, upto: int) -> int
    decreases upto,
{
    if upto <= 0 {
        i32::MIN as int
    } else {
        let rest = max_need(needs, channels, subbands, upto - 1);
        if cell_active(upto - 1, channels, subbands) && needs[upto - 1] > rest {
            needs[upto - 1]
        } else {
            rest
        }
    }
}

/// Allocation in progress: the bits of every cell and the budget left.
pub ghost struct Budget {
    pub bits: Seq<int>,
    pub remaining: int,
}

/// What one cell asks of slice `slice`: 2 bits as a first grant when its
/// need is exactly `slice + 1`, 1 more bit when its need is above the slice
/// and it already has bits.
pub open spec fn slice_demand(need: int, bits: int, slice: int) -> int {
    if need == slice + 1 {
        2
    } else if need > slice && bits > 0 {
        1
    } else {
        0
    }
}

/// What every cell asks of slice `slice`.
pub open spec fn slice_demands(
    needs: Seq<int>,
    bits: Seq<int>,
    channels: int,
    subbands: int,
    slice: int,
) -> Seq<int> {
    Seq::new(
        16,
        |i: int|
            if cell_active(i, channels, subbands) {
                slice_demand(needs[i], bits[i], slice)
            } else {
                0
            },
    )
}

/// The bits after slice `slice` was granted.
pub open spec fn slice_grant(
    needs: Seq<int>,
    bits: Seq<int>,
    channels: int,
    subbands: int,
    slice: int,
) -> Seq<int> {
    Seq::new(
        16,
        |i: int|
            if cell_active(i, channels, subbands) && needs[i] == slice + 1 {
                2
            } else if cell_active(i, channels, subbands) && needs[i] > slice && bits[i] > 0 {
                bits[i] + 1
            } else {
                bits[i]
            },
    )
}

/// The first pass: descend from `bitslice` one slice at a time, for at most
/// `rounds` slices, while the slice is positive and budget remains. A slice
/// is granted whole when its demands fit the remaining budget; the first
/// slice that does not fit ends the pass.
pub open spec fn slice_pass(
    needs: Seq<int>,
    channels: int,
    subbands: int,
    state: Budget,
    bitslice: int,
    rounds: int,
) -> Budget
    decreases rounds,
{
    if rounds <= 0 || bitslice <= 0 || state.remaining <= 0 {
        state
    } else {
        let slice = bitslice - 1;
        let cost = sum_cells(slice_demands(needs, state.bits, channels, subbands, slice), 16);
        if cost <= state.remaining {
            slice_pass(
                needs,
                channels,
                subbands,
                Budget {
                    bits: slice_grant(needs, state.bits, channels, subbands, slice),
                    remaining: state.remaining - cost,
                },
                slice,
                rounds - 1,
            )
        } else {
            state
        }
    }
}

/// A round of the second pass in progress.
pub ghost struct Fill {
    pub bits: Seq<int>,
    pub remaining: int,
    pub granted: bool,
}

/// The second pass at one cell: an active cell with a positive need and
/// fewer than 16 bits takes 1 bit, or 2 as a first grant if 2 remain.
pub open spec fn fill_step(needs: Seq<int>, channels: int, subbands: int, st: Fill, idx: int) -> Fill {
    if cell_active(idx, channels, subbands) && st.remaining > 0 && st.bits[idx] < 16 && needs[idx]
        > 0 {
        if st.bits[idx] == 0 {
            if st.remaining >= 2 {
                Fill { bits: st.bits.update(idx, 2), remaining: st.remaining - 2, granted: true }
            } else {
                st
            }
        } else {
            Fill {
                bits: st.bits.update(idx, st.bits[idx] + 1),
                remaining: st.remaining - 1,
                granted: true,
            }
        }
    } else {
        st
    }
}

/// One round of the second pass over the cells below `upto`.
pub open spec fn fill_round(
    needs: Seq<int>,
    channels: int,
    subbands: int,
    st: Fill,
    upto: int,
) -> Fill
    decreases upto,
{
    if upto <= 0 {
        st
    } else {
        fill_step(
            needs,
            channels,
            subbands,
            fill_round(needs, channels, subbands, st, upto - 1),
            upto - 1,
        )
    }
}

/// The second pass: rounds over all cells, at most `rounds` of them, until
/// the budget is spent or a round grants nothing.
pub open spec fn fill_pass(
    needs: Seq<int>,
    channels: int,
    subbands: int,
    state: Budget,
    rounds: int,
) -> Budget
    decreases rounds,
{
    if rounds <= 0 || state.remaining <= 0 {
        state
    } else {
        let r = fill_round(
            needs,
            channels,
            subbands,
            Fill { bits: state.bits, remaining: state.remaining, granted: false },
            16,
        );
        let next = Budget { bits: r.bits, remaining: r.remaining };
        if r.granted {
            fill_pass(needs, channels, subbands, next, rounds - 1)
        } else {
            next
        }
    }
}

/// Whether the join flags mark subband `sb`.
pub open spec fn join_bit(join_flags: u8, subbands: int, sb: int) -> bool {
    (join_flags >> ((subbands - 1 - sb) as u32)) & 1 == 1
}

/// Whether the joint-stereo adjustment touches subband `sb`.
pub open spec fn join_applies(config: SbcConfig, join_flags: u8, sb: int) -> bool {
    &&& config.channel_mode == ChannelMode::JointStereo
    &&& 0 <= sb < config.subbands.spec_count()
    &&& join_bit(join_flags, config.subbands.spec_count() as int, sb)
}

/// The joint-stereo adjustment: both channels of a joined subband get the
/// larger of their two allocations.
pub open spec fn join_adjust(bits: Seq<int>, config: SbcConfig, join_flags: u8) -> Seq<int> {
    Seq::new(
        16,
        |i: int|
            if join_applies(config, join_flags, i % 8) {
                if bits[i % 8] >= bits[8 + i % 8] {
                    bits[i % 8]
                } else {
                    bits[8 + i % 8]
                }
            } else {
                bits[i]
            },
    )
}

/// The state after both passes, before the joint-stereo adjustment.
pub open spec fn distributed(needs: Seq<int>, config: SbcConfig) -> Budget {
    let channels = config.spec_channels() as int;
    let subbands = config.subbands.spec_count() as int;
    let start = Budget { bits: Seq::new(16, |i: int| 0), remaining: config.bitpool as int };
    let sliced = slice_pass(
        needs,
        channels,
        subbands,
        start,
        max_need(needs, channels, subbands, 16) + 1,
        64,
    );
    fill_pass(needs, channels, subbands, sliced, 256)
}

/// The bits that the distribution algorithm gives to each cell.
pub open spec fn distribution(needs: Seq<int>, config: SbcConfig, join_flags: u8) -> Seq<int> {
    join_adjust(distributed(needs, config).bits, config, join_flags)
}

/// The allocation for a frame's scale factors.
pub open spec fn allocation(scale_factors: SubbandTable, config: SbcConfig, join_flags: u8) -> Seq<
    int,
> {
    distribution(bit_needs(scale_factors, config), config, join_flags)
}

/// A round of the second pass that grants nothing changes nothing.
pub proof fn fill_round_idle(needs: Seq<int>, channels: int, subbands: int, st: Fill, upto: int)
    requires
        !st.granted,
    ensures
        !fill_round(needs, channels, subbands, st, upto).granted ==> fill_round(
            needs,
            channels,
            subbands,
            st,
            upto,
        ) == st,
    decreases upto,
{
    if upto > 0 {
        fill_round_idle(needs, channels, subbands, st, upto - 1);
    }
}

/// Bit allocator for SBC encoding. It holds no state.
pub struct BitAllocator {}

impl BitAllocator {
    /// Create a new bit allocator.
    pub fn new() -> (r: Self) {
        BitAllocator {  }
    }

    /// Allocate bits to subbands based on scale factors and configuration.
    ///
    /// Returns the number of bits allocated to each subband for each
    /// channel.
    pub fn allocate(&self, scale_factors: &SubbandTable, config: &SbcConfig, join_flags: u8) -> (bits:
        SubbandTable)
        ensures
            table_cells(bits) == allocation(*scale_factors, *config, join_flags),
    {
        match config.allocation_method {
            AllocationMethod::Snr => self.allocate_snr(scale_factors, config, join_flags),
            AllocationMethod::Loudness => self.allocate_loudness(scale_factors, config, join_flags),
        }
    }

    /// SNR-based bit allocation: the bit need of a cell is its scale factor.
    pub fn allocate_snr(
        &self,
        scale_factors: &SubbandTable,
        config: &SbcConfig,
        join_flags: u8,
    ) -> (bits: SubbandTable)
        requires
            config.allocation_method == AllocationMethod::Snr,
        ensures
            table_cells(bits) == allocation(*scale_factors, *config, join_flags),
    {
        let num_subbands: usize = config.subbands.count();
        let num_channels: usize = config.channels() as usize;

        let mut bitneed: NeedTable = [[0i32; 8]; 2];
        let mut idx: usize = 0;
        while idx < 16
            invariant
                idx <= 16,
                num_subbands == config.subbands.spec_count(),
                num_channels == config.spec_channels(),
                config.allocation_method == AllocationMethod::Snr,
                forall|i: int|
                    0 <= i < 16 ==> #[trigger] need_cells(bitneed)[i] == (if i < idx {
                        bit_needs(*scale_factors, *config)[i]
                    } else {
                        0
                    }),
            decreases 16 - idx,
        {
            let ch: usize = idx / 8;
            let sb: usize = idx % 8;
            let ghost prev = need_cells(bitneed);
            if ch < num_channels && sb < num_subbands {
                bitneed[ch][sb] = scale_factors[ch][sb] as i32;
            }
            assert forall|i: int| 0 <= i < 16 && i != idx implies #[trigger] need_cells(bitneed)[i]
                == prev[i] by {
                assert(i / 8 != ch || i % 8 != sb);
            }
            assert(need_cells(bitneed)[idx as int] == bitneed[ch as int][sb as int]);
            idx += 1;
        }
        assert(need_cells(bitneed) =~= bit_needs(*scale_factors, *config));
        self.distribute_bits(&bitneed, config, join_flags)
    }

    /// Loudness-based bit allocation: psychoacoustic offsets move the bit
    /// need of a cell away from its scale factor.
    pub fn allocate_loudness(
        &self,
        scale_factors: &SubbandTable,
        config: &SbcConfig,
        join_flags: u8,
    ) -> (bits: SubbandTable)
        requires
            config.allocation_method == AllocationMethod::Loudness,
        ensures
            table_cells(bits) == allocation(*scale_factors, *config, join_flags),
    {
        let num_subbands: usize = config.subbands.count();
        let num_channels: usize = config.channels() as usize;
        let freq_idx: usize = config.sampling_frequency.header_bits() as usize;

        let mut bitneed: NeedTable = [[0i32; 8]; 2];
        let mut idx: usize = 0;
        while idx < 16
            invariant
                idx <= 16,
                num_subbands == config.subbands.spec_count(),
                num_channels == config.spec_channels(),
                freq_idx == config.sampling_frequency.spec_header_bits(),
                config.allocation_method == AllocationMethod::Loudness,
                forall|i: int|
                    0 <= i < 16 ==> #[trigger] need_cells(bitneed)[i] == (if i < idx {
                        bit_needs(*scale_factors, *config)[i]
                    } else {
                        0
                    }),
                forall|i: int| 0 <= i < 16 ==> -5 <= #[trigger] need_cells(bitneed)[i] <= 257,
            decreases 16 - idx,
        {
            let ch: usize = idx / 8;
            let sb: usize = idx % 8;
            let ghost prev = need_cells(bitneed);
            if ch < num_channels && sb < num_subbands {
                let sf: i32 = scale_factors[ch][sb] as i32;
                if sf == 0 {
                    bitneed[ch][sb] = -5;
                } else {
                    let offset: i32 = if num_subbands == 8 {
                        LOUDNESS_OFFSET_8[freq_idx][sb] as i32
                    } else {
                        LOUDNESS_OFFSET_4[freq_idx][sb] as i32
                    };
                    assert(offset == loudness_offset(*config, sb as int));
                    assert(-2 <= offset <= 2);
                    if sf > offset {
                        bitneed[ch][sb] = sf - offset;
                    } else {
                        bitneed[ch][sb] = (sf - offset) / 2;
                    }
                }
            }
            assert forall|i: int| 0 <= i < 16 && i != idx implies #[trigger] need_cells(bitneed)[i]
                == prev[i] by {
                assert(i / 8 != ch || i % 8 != sb);
            }
            assert(need_cells(bitneed)[idx as int] == bitneed[ch as int][sb as int]);
            idx += 1;
        }
        assert(need_cells(bitneed) =~= bit_needs(*scale_factors, *config));
        self.distribute_bits(&bitneed, config, join_flags)
    }

    /// Distribute the bitpool according to the bit needs: the slice pass,
    /// then the fill pass, then the joint-stereo adjustment.
    pub fn distribute_bits(&self, bitneed: &NeedTable, config: &SbcConfig, join_flags: u8) -> (bits:
        SubbandTable)
        requires
            forall|i: int| 0 <= i < 16 ==> #[trigger] need_cells(*bitneed)[i] < i32::MAX,
        ensures
            table_cells(bits) == distribution(need_cells(*bitneed), *config, join_flags),
    {
        let num_subbands: usize = config.subbands.count();
        let num_channels: usize = config.channels() as usize;
        let bitpool: i32 = config.bitpool as i32;

        let ghost needs = need_cells(*bitneed);
        let ghost chs = num_channels as int;
        let ghost sbs = num_subbands as int;

        let mut bits: SubbandTable = [[0u8; 8]; 2];
        let mut remaining_bits: i32 = bitpool;

        // Find the maximum bit need.
        let mut max_bitneed: i32 = i32::MIN;
        let mut idx: usize = 0;
        while idx < 16
            invariant
                idx <= 16,
                needs == need_cells(*bitneed),
                chs == num_channels,
                sbs == num_subbands,
                max_bitneed == max_need(needs, chs, sbs, idx as int),
                max_bitneed < i32::MAX,
                forall|i: int| 0 <= i < 16 ==> #[trigger] need_cells(*bitneed)[i] < i32::MAX,
            decreases 16 - idx,
        {
            let ch: usize = idx / 8;
            let sb: usize = idx % 8;
            if ch < num_channels && sb < num_subbands {
                assert(need_cells(*bitneed)[idx as int] == bitneed[ch as int][sb as int]);
                if bitneed[ch][sb] > max_bitneed {
                    max_bitneed = bitneed[ch][sb];
                }
            }
            idx += 1;
        }

        // First pass: descend the slices from the maximum bit need.
        let mut bitslice: i32 = max_bitneed + 1;
        let ghost start = Budget { bits: Seq::new(16, |i: int| 0), remaining: bitpool as int };
        let ghost sliced = slice_pass(needs, chs, sbs, start, bitslice as int, 64);
        assert(table_cells(bits) =~= start.bits);

        let mut round: usize = 0;
        let mut stopped: bool = false;
        while round < MAX_ITERATIONS && bitslice > 0 && remaining_bits > 0 && !stopped
            invariant
                round <= 64,
                needs == need_cells(*bitneed),
                chs == num_channels,
                sbs == num_subbands,
                0 <= remaining_bits <= 255,
                bitslice <= i32::MAX,
                forall|i: int| 0 <= i < 16 ==> 0 <= #[trigger] table_cells(bits)[i] <= round + 1,
                sliced == slice_pass(
                    needs,
                    chs,
                    sbs,
                    Budget { bits: table_cells(bits), remaining: remaining_bits as int },
                    bitslice as int,
                    64 - round,
                ),
                stopped ==> sliced == (Budget {
                    bits: table_cells(bits),
                    remaining: remaining_bits as int,
                }),
            decreases 64 - round + (if stopped { 0int } else { 1int }),
        {
            let slice: i32 = bitslice - 1;
            let ghost before = table_cells(bits);
            let ghost demands = slice_demands(needs, before, chs, sbs, slice as int);

            // Count the bits this slice would take.
            let mut bits_used: i32 = 0;
            let mut idx: usize = 0;
            while idx < 16
                invariant
                    idx <= 16,
                    needs == need_cells(*bitneed),
                    chs == num_channels,
                    sbs == num_subbands,
                    before == table_cells(bits),
                    demands == slice_demands(needs, before, chs, sbs, slice as int),
                    bits_used == sum_cells(demands, idx as int),
                    0 <= bits_used <= 2 * idx,
                    slice < i32::MAX,
                decreases 16 - idx,
            {
                let ch: usize = idx / 8;
                let sb: usize = idx % 8;
                assert(before[idx as int] == bits[ch as int][sb as int]);
                assert(needs[idx as int] == bitneed[ch as int][sb as int]);
                if ch < num_channels && sb < num_subbands {
                    if bitneed[ch][sb] == slice + 1 {
                        bits_used += 2;
                    } else if bitneed[ch][sb] > slice && bits[ch][sb] > 0 {
                        bits_used += 1;
                    }
                }
                idx += 1;
            }

            if bits_used <= remaining_bits {
                let ghost granted = slice_grant(needs, before, chs, sbs, slice as int);
                let mut idx: usize = 0;
                while idx < 16
                    invariant
                        idx <= 16,
                        round < 64,
                        needs == need_cells(*bitneed),
                        chs == num_channels,
                        sbs == num_subbands,
                        granted == slice_grant(needs, before, chs, sbs, slice as int),
                        forall|i: int| 0 <= i < 16 ==> 0 <= #[trigger] before[i] <= round + 1,
                        forall|i: int|
                            0 <= i < 16 ==> #[trigger] table_cells(bits)[i] == (if i < idx {
                                granted[i]
                            } else {
                                before[i]
                            }),
                        slice < i32::MAX,
                    decreases 16 - idx,
                {
                    let ch: usize = idx / 8;
                    let sb: usize = idx % 8;
                    assert(table_cells(bits)[idx as int] == bits[ch as int][sb as int]);
                    assert(needs[idx as int] == bitneed[ch as int][sb as int]);
                    let ghost prev = table_cells(bits);
                    if ch < num_channels && sb < num_subbands {
                        if bitneed[ch][sb] == slice + 1 {
                            bits[ch][sb] = 2;
                        } else if bitneed[ch][sb] > slice && bits[ch][sb] > 0 {
                            bits[ch][sb] = bits[ch][sb] + 1;
                        }
                    }
                    assert forall|i: int| 0 <= i < 16 && i != idx implies #[trigger] table_cells(
                        bits,
                    )[i] == prev[i] by {
                        assert(i / 8 != ch || i % 8 != sb);
                    }
                    idx += 1;
                }
                assert(table_cells(bits) =~= granted);
                remaining_bits -= bits_used;
                bitslice = slice;
                round += 1;
            } else {
                stopped = true;
            }
        }

        // Second pass: hand out what is left, one bit at a time.
        let ghost filled = fill_pass(needs, chs, sbs, sliced, 256);
        let mut round: usize = 0;
        let mut idle: bool = false;
        while round < MAX_REMAINING_ITERATIONS && remaining_bits > 0 && !idle
            invariant
                round <= 256,
                needs == need_cells(*bitneed),
                chs == num_channels,
                sbs == num_subbands,
                0 <= remaining_bits <= 255,
                forall|i: int| 0 <= i < 16 ==> 0 <= #[trigger] table_cells(bits)[i] <= 65,
                filled == fill_pass(
                    needs,
                    chs,
                    sbs,
                    Budget { bits: table_cells(bits), remaining: remaining_bits as int },
                    256 - round,
                ),
                idle ==> filled == (Budget {
                    bits: table_cells(bits),
                    remaining: remaining_bits as int,
                }),
            decreases 256 - round + (if idle { 0int } else { 1int }),
        {
            let ghost round_start = Fill {
                bits: table_cells(bits),
                remaining: remaining_bits as int,
                granted: false,
            };
            let mut allocated: bool = false;
            let mut idx: usize = 0;
            while idx < 16
                invariant
                    idx <= 16,
                    needs == need_cells(*bitneed),
                    chs == num_channels,
                    sbs == num_subbands,
                    0 <= remaining_bits <= 255,
                    forall|i: int| 0 <= i < 16 ==> 0 <= #[trigger] table_cells(bits)[i] <= 65,
                    fill_round(needs, chs, sbs, round_start, idx as int) == (Fill {
                        bits: table_cells(bits),
                        remaining: remaining_bits as int,
                        granted: allocated,
                    }),
                decreases 16 - idx,
            {
                let ch: usize = idx / 8;
                let sb: usize = idx % 8;
                let ghost prev = table_cells(bits);
                assert(prev[idx as int] == bits[ch as int][sb as int]);
                assert(needs[idx as int] == bitneed[ch as int][sb as int]);
                if ch < num_channels && sb < num_subbands && remaining_bits > 0 {
                    // At most 16 bits per cell.
                    if bits[ch][sb] < 16 && bitneed[ch][sb] > 0 {
                        if bits[ch][sb] == 0 {
                            if remaining_bits >= 2 {
                                bits[ch][sb] = 2;
                                remaining_bits -= 2;
                                allocated = true;
                            }
                        } else {
                            bits[ch][sb] = bits[ch][sb] + 1;
                            remaining_bits -= 1;
                            allocated = true;
                        }
                    }
                }
                proof {
                    assert forall|i: int| 0 <= i < 16 && i != idx implies #[trigger] table_cells(
                        bits,
                    )[i] == prev[i] by {
                        assert(i / 8 != ch || i % 8 != sb);
                    }
                    assert(table_cells(bits) =~= prev.update(
                        idx as int,
                        bits[ch as int][sb as int] as int,
                    ));
                    assert(prev.update(idx as int, prev[idx as int]) =~= prev);
                }
                idx += 1;
            }
            proof {
                let state = Budget { bits: round_start.bits, remaining: round_start.remaining };
                let r = fill_round(needs, chs, sbs, round_start, 16);
                fill_round_idle(needs, chs, sbs, round_start, 16);
                assert(r.bits == table_cells(bits) && r.remaining == remaining_bits
                    && r.granted == allocated);
                assert(filled == fill_pass(needs, chs, sbs, state, 256 - round));
                assert(fill_pass(needs, chs, sbs, state, 256 - round) == (if r.granted {
                    fill_pass(
                        needs,
                        chs,
                        sbs,
                        Budget { bits: r.bits, remaining: r.remaining },
                        256 - round - 1,
                    )
                } else {
                    Budget { bits: r.bits, remaining: r.remaining }
                }));
            }
            if allocated {
                round += 1;
            } else {
                idle = true;
            }
        }

        // Joined subbands share one bit width.
        let ghost apart = table_cells(bits);
        if config.channel_mode == ChannelMode::JointStereo && num_channels == 2 {
            let mut sb: usize = 0;
            while sb < num_subbands
                invariant
                    sb <= num_subbands <= 8,
                    num_subbands == config.subbands.spec_count(),
                    config.channel_mode == ChannelMode::JointStereo,
                    forall|i: int|
                        0 <= i < 16 ==> #[trigger] table_cells(bits)[i] == (if i % 8 < sb {
                            join_adjust(apart, *config, join_flags)[i]
                        } else {
                            apart[i]
                        }),
                decreases num_subbands - sb,
            {
                let ghost prev = table_cells(bits);
                assert(prev[sb as int] == bits[0][sb as int]);
                assert(prev[8 + sb as int] == bits[1][sb as int]);
                if (join_flags >> ((num_subbands - 1 - sb) as u32)) & 1 == 1 {
                    let max_bits: u8 = if bits[0][sb] >= bits[1][sb] {
                        bits[0][sb]
                    } else {
                        bits[1][sb]
                    };
                    bits[0][sb] = max_bits;
                    bits[1][sb] = max_bits;
                }
                assert forall|i: int| 0 <= i < 16 && i % 8 != sb implies #[trigger] table_cells(
                    bits,
                )[i] == prev[i] by {
                    assert(i / 8 == 0 || i / 8 == 1);
                }
                sb += 1;
            }
        }
        assert(table_cells(bits) =~= join_adjust(apart, *config, join_flags));
        bits
    }
}

impl Default for BitAllocator {
    fn default() -> (r: Self) {
        BitAllocator::new()
    }
}

} // verus!
