//! Polyphase analysis filterbank.
//!
//! Turns interleaved PCM into subband samples, 4 or 8 subbands per block,
//! with a windowed prototype filter followed by cosine modulation. The
//! filter history is the only state the encoder carries between frames.

use vstd::prelude::*;
use crate::sbc_encoder::config::{SbcConfig, Subbands};
use crate::sbc_encoder::tables::{COS_TABLE_4, COS_TABLE_8, PROTO_4_40, PROTO_8_80};
use crate::sbc_encoder::tables::{cosine_bounds, prototype_bounds};

verus! {

/// Maximum number of subbands supported.
pub const MAX_SUBBANDS: usize = 8;

/// Maximum number of blocks per frame.
pub const MAX_BLOCKS: usize = 16;

/// Maximum channels.
pub const MAX_CHANNELS: usize = 2;

/// Filter history depth (10 samples per subband).
pub const FILTER_DEPTH: usize = 10;

/// Length of one channel's filter history.
pub const HISTORY_LEN: usize = 80;

/// Subband samples of one frame: `[channel][block][subband]`.
pub type SubbandFrame = [[[i32; 8]; 16]; 2];

/// The prototype coefficient at `idx` for the given subband count.
pub open spec fn prototype(subbands: int, idx: int) -> int {
    if subbands == 8 {
        PROTO_8_80[idx] as int
    } else {
        PROTO_4_40[idx] as int
    }
}

/// The entry of the cosine modulation matrix for output subband `k` and
/// column `i`.
pub open spec fn cosine(subbands: int, k: int, i: int) -> int {
    if subbands == 8 {
        COS_TABLE_8[k][i] as int
    } else {
        COS_TABLE_4[k][i] as int
    }
}

/// Index in the PCM buffer of the sample that lands at history position `i`
/// when `block` is shifted in for `channel`: the block's samples enter in
/// reverse order.
pub open spec fn pcm_index(block: int, channel: int, subbands: int, channels: int, i: int) -> int {
    block * subbands * channels + channel + (subbands - 1 - i) * channels
}

/// The history after one block has been shifted in: the block's samples at
/// the head, everything else moved up by `subbands`, the oldest `subbands`
/// entries of the first `10 * subbands` dropped.
pub open spec fn shift_in(
    x: Seq<i32>,
    pcm: Seq<i16>,
    block: int,
    channel: int,
    subbands: int,
    channels: int,
) -> Seq<i32> {
    Seq::new(
        x.len(),
        |i: int|
            if i < subbands {
                pcm[pcm_index(block, channel, subbands, channels, i)] as i32
            } else if i < subbands * 10 {
                x[i - subbands]
            } else {
                x[i]
            },
    )
}

/// The history of `channel` after the first `blocks` blocks of `pcm` have
/// been shifted in.
pub open spec fn history_after(
    x: Seq<i32>,
    pcm: Seq<i16>,
    channel: int,
    subbands: int,
    channels: int,
    blocks: int,
) -> Seq<i32>
    decreases blocks,
{
    if blocks <= 0 {
        x
    } else {
        shift_in(
            history_after(x, pcm, channel, subbands, channels, blocks - 1),
            pcm,
            blocks - 1,
            channel,
            subbands,
            channels,
        )
    }
}

/// Partial sum `m` of the windowing step over its first `terms` taps: taps
/// `m`, `m + 2 * subbands`, ... of the history, each multiplied by its
/// prototype coefficient and scaled down by 2^15 (rounding toward minus
/// infinity).
pub open spec fn window_sum(x: Seq<i32>, subbands: int, m: int, terms: int) -> int
    decreases terms,
{
    if terms <= 0 {
        0
    } else {
        let idx = 2 * (terms - 1) * subbands + m;
        window_sum(x, subbands, m, terms - 1) + (x[idx] * prototype(subbands, idx)) / 0x8000
    }
}

/// The `2 * subbands` partial sums of the windowing step, five taps each.
pub open spec fn windowed(x: Seq<i32>, subbands: int) -> Seq<int> {
    Seq::new((2 * subbands) as nat, |m: int| window_sum(x, subbands, m, 5))
}

/// The first `n` terms of the cosine modulation for output subband `k`:
/// each partial sum times its matrix entry, scaled down by 2^14.
pub open spec fn modulate_sum(z: Seq<int>, subbands: int, k: int, n: int) -> int
    decreases n,
{
    if n <= 0 {
        0
    } else {
        modulate_sum(z, subbands, k, n - 1) + (z[n - 1] * cosine(subbands, k, (n - 1) % subbands))
            / 0x4000
    }
}

/// Subband sample `k` computed from a channel's history: the modulated sum
/// scaled down by 2^8 and kept to 32 bits.
pub open spec fn subband_sample(x: Seq<i32>, subbands: int, k: int) -> i32 {
    (modulate_sum(windowed(x, subbands), subbands, k, 2 * subbands) / 0x100) as i32
}

/// The subband samples that `process` produces from the histories `x` and
/// the PCM buffer: for each active channel and block, the samples computed
/// from that channel's history after the block was shifted in. Cells
/// outside the active geometry are zero.
pub open spec fn analysis_output(
    x: [[i32; 80]; 2],
    pcm: Seq<i16>,
    config: SbcConfig,
    ch: int,
    blk: int,
    sb: int,
) -> i32 {
    let subbands = config.subbands.spec_count() as int;
    let channels = config.spec_channels() as int;
    if ch < channels && blk < config.block_length.spec_count() && sb < subbands {
        subband_sample(history_after(x[ch]@, pcm, ch, subbands, channels, blk + 1), subbands, sb)
    } else {
        0
    }
}

/// Magnitude bound of one windowing partial sum.
pub open spec fn window_bound(terms: int) -> int {
    terms * 0x20_0000_0000
}

proof fn lemma_window_term(x: i32, p: int)
    requires
        -0x20_0000 < p < 0x20_0000,
    ensures
        -0x10_0000_0000_0000 <= x * p <= 0x10_0000_0000_0000,
        -0x20_0000_0000 <= (x * p) / 0x8000 <= 0x20_0000_0000,
{
    assert(-0x10_0000_0000_0000 <= x * p <= 0x10_0000_0000_0000) by (nonlinear_arith)
        requires
            -0x8000_0000 <= x <= 0x8000_0000,
            -0x20_0000 < p < 0x20_0000,
    ;
}

proof fn lemma_window_sum_bound(x: Seq<i32>, subbands: int, m: int, terms: int)
    requires
        subbands == 4 || subbands == 8,
        x.len() == 80,
        0 <= m < 2 * subbands,
        0 <= terms <= 5,
    ensures
        -window_bound(terms) <= window_sum(x, subbands, m, terms) <= window_bound(terms),
    decreases terms,
{
    if terms > 0 {
        lemma_window_sum_bound(x, subbands, m, terms - 1);
        prototype_bounds();
        let idx = 2 * (terms - 1) * subbands + m;
        lemma_window_term(x[idx], prototype(subbands, idx));
    }
}

proof fn lemma_modulate_term(z: int, c: int)
    requires
        -0x100_0000_0000 <= z <= 0x100_0000_0000,
        -0x4000 < c < 0x4000,
    ensures
        -0x40_0000_0000_0000 <= z * c <= 0x40_0000_0000_0000,
        -0x100_0000_0000 <= (z * c) / 0x4000 <= 0x100_0000_0000,
{
    assert(-0x40_0000_0000_0000 <= z * c <= 0x40_0000_0000_0000) by (nonlinear_arith)
        requires
            -0x100_0000_0000 <= z <= 0x100_0000_0000,
            -0x4000 < c < 0x4000,
    ;
}

/// Analysis filter state: the filter history of each channel.
#[derive(Clone, Copy)]
pub struct AnalysisFilter {
    /// Filter memory for each channel, newest sample first.
    pub x: [[i32; 80]; 2],
    /// Write cursor; the history is shifted in place, so it stays at zero.
    pub x_pos: usize,
    /// Number of subbands the filter was created for.
    pub subbands: Subbands,
}

impl AnalysisFilter {
    /// Whether every history entry is zero and the cursor is at the start.
    pub open spec fn is_clear(&self) -> bool {
        &&& self.x_pos == 0
        &&& forall|ch: int, i: int| 0 <= ch < 2 && 0 <= i < 80 ==> self.x[ch][i] == 0
    }

    /// Create a new analysis filter for the given number of subbands.
    pub fn new(subbands: Subbands) -> (r: Self)
        ensures
            r.is_clear(),
            r.subbands == subbands,
    {
        AnalysisFilter { x: [[0i32; 80]; 2], x_pos: 0, subbands }
    }

    /// Reset filter state (clear history).
    pub fn reset(&mut self)
        ensures
            final(self).is_clear(),
            final(self).subbands == old(self).subbands,
    {
        self.x = [[0i32; 80]; 2];
        self.x_pos = 0;
    }

    /// Process PCM samples through the analysis filterbank.
    ///
    /// `pcm` holds interleaved samples, one frame's worth for every channel
    /// of `config`. Returns the subband samples `[channel][block][subband]`
    /// and leaves each active channel's history advanced by the frame.
    pub fn process(&mut self, pcm: &[i16], config: &SbcConfig) -> (output: SubbandFrame)
        requires
            pcm.len() >= config.spec_samples_per_frame() * config.spec_channels(),
        ensures
            forall|ch: int, blk: int, sb: int|
                0 <= ch < 2 && 0 <= blk < 16 && 0 <= sb < 8 ==> #[trigger] output[ch][blk][sb]
                    == analysis_output(old(self).x, pcm@, *config, ch, blk, sb),
            forall|ch: int|
                0 <= ch < 2 ==> #[trigger] final(self).x[ch]@ == history_after(
                    old(self).x[ch]@,
                    pcm@,
                    ch,
                    config.subbands.spec_count() as int,
                    config.spec_channels() as int,
                    if ch < config.spec_channels() {
                        config.block_length.spec_count() as int
                    } else {
                        0
                    },
                ),
            final(self).x_pos == old(self).x_pos,
            final(self).subbands == old(self).subbands,
    {
        let num_subbands: usize = config.subbands.count();
        let num_blocks: usize = config.block_length.count();
        let num_channels: usize = config.channels() as usize;

        let mut output: SubbandFrame = [[[0i32; 8]; 16]; 2];
        let ghost x0 = self.x;
        let ghost sbi = num_subbands as int;
        let ghost chi = num_channels as int;

        let mut blk: usize = 0;
        while blk < num_blocks
            invariant
                blk <= num_blocks,
                num_subbands == config.subbands.spec_count(),
                num_blocks == config.block_length.spec_count(),
                num_channels == config.spec_channels(),
                sbi == num_subbands,
                chi == num_channels,
                pcm.len() >= num_blocks * num_subbands * num_channels,
                self.x_pos == old(self).x_pos,
                self.subbands == old(self).subbands,
                x0 == old(self).x,
                forall|ch: int|
                    0 <= ch < 2 ==> #[trigger] self.x[ch]@ == history_after(
                        x0[ch]@,
                        pcm@,
                        ch,
                        sbi,
                        chi,
                        if ch < chi {
                            blk as int
                        } else {
                            0
                        },
                    ),
                forall|ch: int, b: int, sb: int|
                    0 <= ch < 2 && 0 <= b < 16 && 0 <= sb < 8 ==> #[trigger] output[ch][b][sb] == (
                    if b < blk {
                        analysis_output(x0, pcm@, *config, ch, b, sb)
                    } else {
                        0
                    }),
            decreases num_blocks - blk,
        {
            let mut ch: usize = 0;
            while ch < num_channels
                invariant
                    blk < num_blocks,
                    ch <= num_channels,
                    num_subbands == config.subbands.spec_count(),
                    num_blocks == config.block_length.spec_count(),
                    num_channels == config.spec_channels(),
                    sbi == num_subbands,
                    chi == num_channels,
                    pcm.len() >= num_blocks * num_subbands * num_channels,
                    self.x_pos == old(self).x_pos,
                    self.subbands == old(self).subbands,
                    x0 == old(self).x,
                    forall|c: int|
                        0 <= c < 2 ==> #[trigger] self.x[c]@ == history_after(
                            x0[c]@,
                            pcm@,
                            c,
                            sbi,
                            chi,
                            if c < ch {
                                blk + 1
                            } else if c < chi {
                                blk as int
                            } else {
                                0
                            },
                        ),
                    forall|c: int, b: int, sb: int|
                        0 <= c < 2 && 0 <= b < 16 && 0 <= sb < 8 ==> #[trigger] output[c][b][sb]
                            == (if b < blk || (b == blk && c < ch) {
                            analysis_output(x0, pcm@, *config, c, b, sb)
                        } else {
                            0
                        }),
                decreases num_channels - ch,
            {
                assert((blk + 1) * num_subbands * num_channels <= num_blocks * num_subbands
                    * num_channels) by (nonlinear_arith)
                    requires
                        blk < num_blocks,
                        num_subbands > 0,
                        num_channels > 0,
                ;
                self.shift_in_samples(pcm, blk, ch, num_subbands, num_channels);
                let sb_samples: [i32; 8] = self.compute_subbands(ch, num_subbands);
                assert(self.x[ch as int]@ == history_after(
                    x0[ch as int]@,
                    pcm@,
                    ch as int,
                    sbi,
                    chi,
                    blk + 1,
                ));
                output[ch][blk] = sb_samples;
                ch += 1;
            }
            blk += 1;
        }
        output
    }

    /// Shift one block of PCM samples of `channel` into its filter memory.
    pub fn shift_in_samples(
        &mut self,
        pcm: &[i16],
        block: usize,
        channel: usize,
        subbands: usize,
        channels: usize,
    )
        requires
            subbands == 4 || subbands == 8,
            channel < channels <= 2,
            block < 16,
            pcm.len() >= (block + 1) * subbands * channels,
        ensures
            final(self).x[channel as int]@ == shift_in(
                old(self).x[channel as int]@,
                pcm@,
                block as int,
                channel as int,
                subbands as int,
                channels as int,
            ),
            forall|c: int| 0 <= c < 2 && c != channel ==> final(self).x[c] == old(self).x[c],
            final(self).x_pos == old(self).x_pos,
            final(self).subbands == old(self).subbands,
    {
        assert(block * subbands * channels + subbands * channels == (block + 1) * subbands
            * channels) by (nonlinear_arith);
        assert(0 <= block * subbands * channels <= 15 * 8 * 2) by (nonlinear_arith)
            requires
                block <= 15,
                subbands <= 8,
                channels <= 2,
        ;
        let pcm_start: usize = (block * subbands * channels) + channel;
        let history_len: usize = subbands * FILTER_DEPTH;

        let mut i: usize = history_len;
        while i > subbands
            invariant
                subbands <= i <= history_len,
                history_len == subbands * 10,
                subbands == 4 || subbands == 8,
                channel < 2,
                self.x_pos == old(self).x_pos,
                self.subbands == old(self).subbands,
                forall|c: int| 0 <= c < 2 && c != channel ==> self.x[c] == old(self).x[c],
                forall|k: int|
                    0 <= k < 80 ==> #[trigger] self.x[channel as int][k] == (if i <= k
                        < history_len {
                        old(self).x[channel as int][k - subbands]
                    } else {
                        old(self).x[channel as int][k]
                    }),
            decreases i,
        {
            i -= 1;
            let moved: i32 = self.x[channel][i - subbands];
            self.x[channel][i] = moved;
        }

        let mut j: usize = 0;
        while j < subbands
            invariant
                j <= subbands,
                history_len == subbands * 10,
                subbands == 4 || subbands == 8,
                channel < channels <= 2,
                pcm_start == block * subbands * channels + channel,
                pcm.len() >= block * subbands * channels + subbands * channels,
                self.x_pos == old(self).x_pos,
                self.subbands == old(self).subbands,
                forall|c: int| 0 <= c < 2 && c != channel ==> self.x[c] == old(self).x[c],
                forall|k: int|
                    0 <= k < 80 ==> #[trigger] self.x[channel as int][k] == (if k < j {
                        pcm@[pcm_index(
                            block as int,
                            channel as int,
                            subbands as int,
                            channels as int,
                            k,
                        )] as i32
                    } else if subbands <= k < history_len {
                        old(self).x[channel as int][k - subbands]
                    } else {
                        old(self).x[channel as int][k]
                    }),
            decreases subbands - j,
        {
            assert((subbands - 1 - j) * channels + channels <= subbands * channels)
                by (nonlinear_arith)
                requires
                    j < subbands,
                    channels >= 0,
            ;
            assert((subbands - 1 - j) * channels >= 0) by (nonlinear_arith)
                requires
                    j < subbands,
                    channels >= 0,
            ;
            let pcm_idx: usize = pcm_start + (subbands - 1 - j) * channels;
            self.x[channel][j] = pcm[pcm_idx] as i32;
            j += 1;
        }
        assert(self.x[channel as int]@ =~= shift_in(
            old(self).x[channel as int]@,
            pcm@,
            block as int,
            channel as int,
            subbands as int,
            channels as int,
        ));
    }

    /// Compute the subband samples of `channel` from its current history.
    /// Entries from `subbands` on are zero.
    pub fn compute_subbands(&self, channel: usize, subbands: usize) -> (sb: [i32; 8])
        requires
            subbands == 4 || subbands == 8,
            channel < 2,
        ensures
            forall|k: int|
                0 <= k < 8 ==> #[trigger] sb[k] == (if k < subbands {
                    subband_sample(self.x[channel as int]@, subbands as int, k)
                } else {
                    0
                }),
    {
        let mut sb: [i32; 8] = [0i32; 8];
        let mut z: [i64; 16] = [0i64; 16];
        let ghost x = self.x[channel as int]@;
        let ghost n = subbands as int;
        proof {
            prototype_bounds();
            cosine_bounds();
        }

        // Step 1: window by the prototype filter.
        let mut j: usize = 0;
        while j < FILTER_DEPTH
            invariant
                j <= 10,
                subbands == 4 || subbands == 8,
                n == subbands,
                channel < 2,
                x == self.x[channel as int]@,
                forall|m: int|
                    0 <= m < n ==> #[trigger] z[m] == window_sum(x, n, m, (j + 1) / 2),
                forall|m: int| n <= m < 2 * n ==> #[trigger] z[m] == window_sum(x, n, m, (j as int) / 2),
            decreases 10 - j,
        {
            let ghost p = (j as int) % 2;
            let ghost t = (j as int) / 2;
            let mut i: usize = 0;
            while i < subbands
                invariant
                    i <= subbands,
                    j < 10,
                    p == j % 2,
                    t == j / 2,
                    subbands == 4 || subbands == 8,
                    n == subbands,
                    channel < 2,
                    x == self.x[channel as int]@,
                    forall|m: int|
                        0 <= m < 2 * n ==> #[trigger] z[m] == window_sum(
                            x,
                            n,
                            m,
                            if m / n == p && m % n < i {
                                t + 1
                            } else if m < n {
                                (j + 1) / 2
                            } else {
                                (j as int) / 2
                            },
                        ),
                decreases subbands - i,
            {
                let x_idx: usize = j * subbands + i;
                let z_idx: usize = i + (j % 2) * subbands;

                let x_val: i64 = self.x[channel][x_idx] as i64;
                let proto_val: i64 = if subbands == 8 {
                    PROTO_8_80[x_idx] as i64
                } else {
                    PROTO_4_40[x_idx] as i64
                };
                proof {
                    lemma_window_term(self.x[channel as int][x_idx as int], proto_val as int);
                    assert(x_idx == 2 * t * n + z_idx) by (nonlinear_arith)
                        requires
                            x_idx == j * n + i,
                            z_idx == i + p * n,
                            p == j % 2,
                            t == j / 2,
                    ;
                    assert((z_idx as int) / n == p && (z_idx as int) % n == i) by (nonlinear_arith)
                        requires
                            z_idx == i + p * n,
                            0 <= i < n,
                            0 <= p <= 1,
                    ;
                    assert(x[x_idx as int] == self.x[channel as int][x_idx as int]);
                    assert(proto_val == prototype(n, x_idx as int));
                    lemma_window_sum_bound(x, n, z_idx as int, t);
                }
                let product: i64 = x_val * proto_val;
                assert((product >> 15) == product / 0x8000) by (bit_vector);
                let ghost old_z = z;
                z[z_idx] = z[z_idx] + (product >> 15);
                i += 1;
                proof {
                    assert forall|m: int| 0 <= m < 2 * n implies #[trigger] z[m] == window_sum(
                        x,
                        n,
                        m,
                        if m / n == p && m % n < i {
                            t + 1
                        } else if m < n {
                            (j + 1) / 2
                        } else {
                            (j as int) / 2
                        },
                    ) by {
                        if m == z_idx {
                            assert(old_z[m] == window_sum(x, n, m, t)) by {
                                if m < n {
                                    assert(p == 0) by (nonlinear_arith)
                                        requires
                                            m == i - 1 + p * n,
                                            m < n,
                                            0 <= i - 1,
                                            0 <= p <= 1,
                                            n > 0,
                                    ;
                                } else {
                                    assert(p == 1) by (nonlinear_arith)
                                        requires
                                            m == i - 1 + p * n,
                                            m >= n,
                                            i - 1 < n,
                                            0 <= p <= 1,
                                            n > 0,
                                    ;
                                }
                            }
                        } else {
                            assert(z[m] == old_z[m]);
                            if m / n == p && m % n < i {
                                assert(m % n != i - 1) by {
                                    if m % n == i - 1 {
                                        assert(m == n * (m / n) + m % n) by (nonlinear_arith)
                                            requires
                                                n > 0,
                                        ;
                                        assert(n * p == p * n) by (nonlinear_arith);
                                    }
                                }
                            }
                        }
                    }
                }
            }
            proof {
                assert forall|m: int| 0 <= m < n implies #[trigger] z[m] == window_sum(
                    x,
                    n,
                    m,
                    (j + 2) / 2,
                ) by {
                    assert(m / n == 0 && m % n == m) by (nonlinear_arith)
                        requires
                            0 <= m < n,
                    ;
                }
                assert forall|m: int| n <= m < 2 * n implies #[trigger] z[m] == window_sum(
                    x,
                    n,
                    m,
                    (j + 1) / 2,
                ) by {
                    assert(m / n == 1 && m % n == m - n) by (nonlinear_arith)
                        requires
                            n <= m < 2 * n,
                    ;
                }
            }
            j += 1;
        }
        let ghost zs = windowed(x, n);
        assert forall|m: int| 0 <= m < 2 * n implies #[trigger] z[m] == zs[m] && -window_bound(5)
            <= z[m] <= window_bound(5) by {
            lemma_window_sum_bound(x, n, m, 5);
        }

        // Step 2: matrixing (cosine modulation).
        let mut k: usize = 0;
        while k < subbands
            invariant
                k <= subbands,
                subbands == 4 || subbands == 8,
                n == subbands,
                channel < 2,
                x == self.x[channel as int]@,
                zs == windowed(x, n),
                forall|m: int| 0 <= m < 2 * n ==> #[trigger] z[m] == zs[m],
                forall|m: int|
                    0 <= m < 2 * n ==> -window_bound(5) <= #[trigger] z[m] <= window_bound(5),
                forall|q: int|
                    0 <= q < 8 ==> #[trigger] sb[q] == (if q < k {
                        subband_sample(x, n, q)
                    } else {
                        0
                    }),
                forall|a: int, b: int|
                    0 <= a < 8 && 0 <= b < 8 ==> -0x4000 < #[trigger] COS_TABLE_8[a][b] < 0x4000,
                forall|a: int, b: int|
                    0 <= a < 4 && 0 <= b < 4 ==> -0x4000 < #[trigger] COS_TABLE_4[a][b] < 0x4000,
            decreases subbands - k,
        {
            let mut sum: i64 = 0;
            let mut i: usize = 0;
            while i < subbands * 2
                invariant
                    i <= subbands * 2,
                    k < subbands,
                    subbands == 4 || subbands == 8,
                    n == subbands,
                    zs == windowed(x, n),
                    forall|m: int| 0 <= m < 2 * n ==> #[trigger] z[m] == zs[m],
                    forall|m: int|
                        0 <= m < 2 * n ==> -window_bound(5) <= #[trigger] z[m] <= window_bound(5),
                    sum == modulate_sum(zs, n, k as int, i as int),
                    -i * 0x100_0000_0000 <= sum <= i * 0x100_0000_0000,
                    forall|a: int, b: int|
                        0 <= a < 8 && 0 <= b < 8 ==> -0x4000 < #[trigger] COS_TABLE_8[a][b]
                            < 0x4000,
                    forall|a: int, b: int|
                        0 <= a < 4 && 0 <= b < 4 ==> -0x4000 < #[trigger] COS_TABLE_4[a][b]
                            < 0x4000,
                decreases subbands * 2 - i,
            {
                let cos_idx: usize = i % subbands;
                let cos_val: i64 = if subbands == 8 {
                    COS_TABLE_8[k][cos_idx] as i64
                } else {
                    COS_TABLE_4[k][cos_idx] as i64
                };
                proof {
                    assert(cos_val == cosine(n, k as int, i as int % n));
                    lemma_modulate_term(z[i as int] as int, cos_val as int);
                }
                let product: i64 = z[i] * cos_val;
                assert((product >> 14) == product / 0x4000) by (bit_vector);
                sum = sum + (product >> 14);
                i += 1;
            }
            assert((sum >> 8) == sum / 0x100) by (bit_vector);
            sb[k] = #[verifier::truncate]
            ((sum >> 8) as i32);
            k += 1;
        }
        sb
    }
}

} // verus!
