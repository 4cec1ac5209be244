//! SBC frame packing.
//!
//! A frame is a 4-byte header (sync word, geometry, bitpool, CRC) followed
//! by a bit stream, most significant bit first: the join flags in joint
//! stereo, the scale factors, and the quantized samples block by block. The
//! last byte is padded with zero bits.

use vstd::prelude::*;
use crate::sbc_encoder::bitalloc::cell_active;
use crate::sbc_encoder::config::{ChannelMode, SbcConfig};
use crate::sbc_encoder::quantizer::{QuantizedFrame, SubbandTable};

verus! {

/// SBC sync word.
pub const SBC_SYNCWORD: u8 = 0x9C;

/// CRC-8 polynomial x^8 + x^4 + x^3 + x^2 + 1.
pub const CRC_POLY: u8 = 0x1D;

/// Initial value of the CRC register.
pub const CRC_INIT: u8 = 0x0F;

/// Bit `j` of a value, bit 0 being the least significant.
pub open spec fn bit_of(value: u32, j: u32) -> bool {
    (value >> j) & 1 == 1
}

/// `w` if the bit is set, else 0.
pub open spec fn weigh(b: bool, w: u32) -> u32 {
    if b {
        w
    } else {
        0
    }
}

/// The low `n` bits of a value, most significant first.
pub open spec fn field_bits(value: u32, n: int) -> Seq<bool> {
    Seq::new(n as nat, |i: int| bit_of(value, (n - 1 - i) as u32))
}

/// Bit `i` of a stream as a number; past the end the stream reads as zero.
pub open spec fn stream_bit(stream: Seq<bool>, i: int) -> bool {
    0 <= i < stream.len() && stream[i]
}

/// Byte `k` of a bit stream, the first bit being the most significant.
pub open spec fn packed_byte(stream: Seq<bool>, k: int) -> u8 {
    (weigh(stream_bit(stream, 8 * k), 128) + weigh(stream_bit(stream, 8 * k + 1), 64) + weigh(
        stream_bit(stream, 8 * k + 2),
        32,
    ) + weigh(stream_bit(stream, 8 * k + 3), 16) + weigh(stream_bit(stream, 8 * k + 4), 8) + weigh(
        stream_bit(stream, 8 * k + 5),
        4,
    ) + weigh(stream_bit(stream, 8 * k + 6), 2) + weigh(stream_bit(stream, 8 * k + 7), 1)) as u8
}

/// A bit stream as bytes, zero-padded to a byte boundary.
pub open spec fn packed_bytes(stream: Seq<bool>) -> Seq<u8> {
    Seq::new(((stream.len() + 7) / 8) as nat, |k: int| packed_byte(stream, k))
}

/// The join flags as they stand in the stream: one bit per subband in joint
/// stereo, nothing in the other modes.
pub open spec fn join_bits(config: SbcConfig, join_flags: u8) -> Seq<bool> {
    if config.channel_mode == ChannelMode::JointStereo {
        field_bits(join_flags as u32, config.subbands.spec_count() as int)
    } else {
        Seq::empty()
    }
}

/// The scale factors of the active cells below `upto`, 4 bits each.
pub open spec fn scale_factor_bits(
    scale_factors: SubbandTable,
    channels: int,
    subbands: int,
    upto: int,
) -> Seq<bool>
    decreases upto,
{
    if upto <= 0 {
        Seq::empty()
    } else {
        let rest = scale_factor_bits(scale_factors, channels, subbands, upto - 1);
        if cell_active(upto - 1, channels, subbands) {
            rest + field_bits(scale_factors[(upto - 1) / 8][(upto - 1) % 8] as u32, 4)
        } else {
            rest
        }
    }
}

/// The quantized samples of the first `n` slots, a slot being a cell of a
/// block and slot `16 * block + cell` coming after all lower ones. An
/// active cell with bits allocated contributes that many bits of its
/// sample; every other slot contributes nothing.
pub open spec fn audio_bits(
    bits: SubbandTable,
    samples: QuantizedFrame,
    channels: int,
    subbands: int,
    n: int,
) -> Seq<bool>
    decreases n,
{
    if n <= 0 {
        Seq::empty()
    } else {
        let rest = audio_bits(bits, samples, channels, subbands, n - 1);
        let blk = (n - 1) / 16;
        let cell = (n - 1) % 16;
        if cell_active(cell, channels, subbands) && bits[cell / 8][cell % 8] > 0 {
            rest + field_bits(
                samples[cell / 8][blk][cell % 8] as u32,
                bits[cell / 8][cell % 8] as int,
            )
        } else {
            rest
        }
    }
}

/// The bit stream of a frame after its header.
pub open spec fn payload_bits(
    config: SbcConfig,
    join_flags: u8,
    scale_factors: SubbandTable,
    bits: SubbandTable,
    samples: QuantizedFrame,
) -> Seq<bool> {
    let channels = config.spec_channels() as int;
    let subbands = config.subbands.spec_count() as int;
    join_bits(config, join_flags) + scale_factor_bits(scale_factors, channels, subbands, 16)
        + audio_bits(bits, samples, channels, subbands, 16 * config.block_length.spec_count())
}

/// Number of scale-factor bits of the active cells below `upto`.
pub open spec fn scale_factor_len(channels: int, subbands: int, upto: int) -> int
    decreases upto,
{
    if upto <= 0 {
        0
    } else {
        scale_factor_len(channels, subbands, upto - 1) + (if cell_active(
            upto - 1,
            channels,
            subbands,
        ) {
            4int
        } else {
            0int
        })
    }
}

/// Number of sample bits one block takes in the active cells below `upto`.
pub open spec fn block_len(bits: SubbandTable, channels: int, subbands: int, upto: int) -> int
    decreases upto,
{
    if upto <= 0 {
        0
    } else {
        block_len(bits, channels, subbands, upto - 1) + (if cell_active(
            upto - 1,
            channels,
            subbands,
        ) {
            bits[(upto - 1) / 8][(upto - 1) % 8] as int
        } else {
            0int
        })
    }
}

/// Number of bits of a frame after its header.
pub open spec fn payload_len(config: SbcConfig, bits: SubbandTable) -> int {
    let channels = config.spec_channels() as int;
    let subbands = config.subbands.spec_count() as int;
    (if config.channel_mode == ChannelMode::JointStereo {
        subbands
    } else {
        0
    }) + scale_factor_len(channels, subbands, 16) + config.block_length.spec_count() * block_len(
        bits,
        channels,
        subbands,
        16,
    )
}

/// Number of bytes of a packed frame: the header and the payload rounded up
/// to whole bytes.
pub open spec fn packed_frame_len(config: SbcConfig, bits: SubbandTable) -> int {
    4 + (payload_len(config, bits) + 7) / 8
}

/// The header byte that carries the geometry: frequency (2 bits), blocks
/// (2), channel mode (2), allocation method (1), subbands (1).
pub open spec fn header_byte(config: SbcConfig) -> u8 {
    (config.sampling_frequency.spec_header_bits() << 6) | (config.block_length.spec_header_bits()
        << 4) | (config.channel_mode.spec_header_bits() << 2) | (
    config.allocation_method.spec_header_bits() << 1) | config.subbands.spec_header_bits()
}

/// The CRC register after one more input bit.
pub open spec fn crc_bit(crc: u8, input: u8) -> u8 {
    if (input ^ ((crc >> 7) & 1)) == 1 {
        (crc << 1) ^ 0x1D
    } else {
        crc << 1
    }
}

/// The CRC register after the first `nbits` bits of a byte, most
/// significant first.
pub open spec fn crc_byte(crc: u8, byte: u8, nbits: int) -> u8
    decreases nbits,
{
    if nbits <= 0 {
        crc
    } else {
        crc_bit(crc_byte(crc, byte, nbits - 1), (byte >> ((8 - nbits) as u8)) & 1)
    }
}

/// The frame checksum over the first `upto` bytes: CRC-8 with polynomial
/// 0x1D and initial value 0x0F over every byte but the sync word (byte 0)
/// and the checksum itself (byte 3).
pub open spec fn crc_over(data: Seq<u8>, upto: int) -> u8
    decreases upto,
{
    if upto <= 1 {
        0x0F
    } else if upto - 1 == 3 {
        crc_over(data, upto - 1)
    } else {
        crc_byte(crc_over(data, upto - 1), data[upto - 1], 8)
    }
}

/// A frame with its checksum byte still zero.
pub open spec fn unsigned_frame(
    config: SbcConfig,
    join_flags: u8,
    scale_factors: SubbandTable,
    bits: SubbandTable,
    samples: QuantizedFrame,
) -> Seq<u8> {
    seq![0x9Cu8, header_byte(config), config.bitpool, 0u8] + packed_bytes(
        payload_bits(config, join_flags, scale_factors, bits, samples),
    )
}

/// The bytes of a frame.
pub open spec fn sbc_frame(
    config: SbcConfig,
    join_flags: u8,
    scale_factors: SubbandTable,
    bits: SubbandTable,
    samples: QuantizedFrame,
) -> Seq<u8> {
    let unsigned = unsigned_frame(config, join_flags, scale_factors, bits, samples);
    unsigned.update(3, crc_over(unsigned, unsigned.len() as int))
}

/// The checksum of a prefix reads nothing past the prefix.
pub proof fn lemma_crc_prefix(a: Seq<u8>, b: Seq<u8>, upto: int)
    requires
        upto <= a.len(),
        upto <= b.len(),
        forall|i: int| 1 <= i < upto && i != 3 ==> a[i] == b[i],
    ensures
        crc_over(a, upto) == crc_over(b, upto),
    decreases upto,
{
    if upto > 1 {
        lemma_crc_prefix(a, b, upto - 1);
    }
}

pub proof fn lemma_scale_factor_bits_len(
    scale_factors: SubbandTable,
    channels: int,
    subbands: int,
    upto: int,
)
    ensures
        scale_factor_bits(scale_factors, channels, subbands, upto).len() == scale_factor_len(
            channels,
            subbands,
            upto,
        ),
    decreases upto,
{
    if upto > 0 {
        lemma_scale_factor_bits_len(scale_factors, channels, subbands, upto - 1);
    }
}

proof fn lemma_scale_factor_len_monotone(channels: int, subbands: int, a: int, b: int)
    requires
        a <= b,
    ensures
        0 <= scale_factor_len(channels, subbands, a) <= scale_factor_len(channels, subbands, b),
    decreases b,
{
    if b > 0 {
        if a < b {
            lemma_scale_factor_len_monotone(channels, subbands, a, b - 1);
        } else {
            lemma_scale_factor_len_monotone(channels, subbands, a - 1, b - 1);
        }
    }
}

proof fn lemma_block_len_monotone(bits: SubbandTable, channels: int, subbands: int, a: int, b: int)
    requires
        a <= b,
    ensures
        0 <= block_len(bits, channels, subbands, a) <= block_len(bits, channels, subbands, b),
        block_len(bits, channels, subbands, b) <= 255 * b || b < 0,
    decreases b,
{
    if b > 0 {
        if a < b {
            lemma_block_len_monotone(bits, channels, subbands, a, b - 1);
        } else {
            lemma_block_len_monotone(bits, channels, subbands, a - 1, b - 1);
        }
    }
}

/// The sample bits of `n` slots: whole blocks, then the cells of the block
/// in progress.
pub proof fn lemma_audio_bits_len(
    bits: SubbandTable,
    samples: QuantizedFrame,
    channels: int,
    subbands: int,
    n: int,
)
    requires
        0 <= n,
    ensures
        audio_bits(bits, samples, channels, subbands, n).len() == (n / 16) * block_len(
            bits,
            channels,
            subbands,
            16,
        ) + block_len(bits, channels, subbands, n % 16),
    decreases n,
{
    let whole = block_len(bits, channels, subbands, 16);
    if n > 0 {
        lemma_audio_bits_len(bits, samples, channels, subbands, n - 1);
        if n % 16 == 0 {
            assert((n - 1) % 16 == 15 && (n - 1) / 16 == n / 16 - 1);
            assert((n / 16 - 1) * whole + whole == (n / 16) * whole) by (nonlinear_arith);
        } else {
            assert((n - 1) % 16 == n % 16 - 1 && (n - 1) / 16 == n / 16);
        }
    } else {
        assert(0 * whole == 0);
    }
}

/// The payload of a frame has `payload_len` bits, whatever the samples and
/// scale factors.
pub proof fn lemma_payload_bits_len(
    config: SbcConfig,
    join_flags: u8,
    scale_factors: SubbandTable,
    bits: SubbandTable,
    samples: QuantizedFrame,
)
    ensures
        payload_bits(config, join_flags, scale_factors, bits, samples).len() == payload_len(
            config,
            bits,
        ),
        unsigned_frame(config, join_flags, scale_factors, bits, samples).len() == packed_frame_len(
            config,
            bits,
        ),
        sbc_frame(config, join_flags, scale_factors, bits, samples).len() == packed_frame_len(
            config,
            bits,
        ),
{
    let channels = config.spec_channels() as int;
    let subbands = config.subbands.spec_count() as int;
    let blocks = config.block_length.spec_count() as int;
    lemma_scale_factor_bits_len(scale_factors, channels, subbands, 16);
    lemma_audio_bits_len(bits, samples, channels, subbands, 16 * blocks);
    lemma_block_len_monotone(bits, channels, subbands, 0, 16);
    lemma_scale_factor_len_monotone(channels, subbands, 0, 16);
    assert(blocks * block_len(bits, channels, subbands, 16) >= 0) by (nonlinear_arith)
        requires
            blocks >= 0,
            block_len(bits, channels, subbands, 16) >= 0,
    ;
}

proof fn lemma_append_low(acc: u32, value: u32, mask: u32, nb: u32, j: u32)
    by (bit_vector)
    requires
        1 <= nb <= 16,
        mask == ((1u32 << nb) - 1) as u32,
        j < nb,
    ensures
        bit_of((acc << nb) | (value & mask), j) == bit_of(value, j),
{
}

proof fn lemma_append_high(acc: u32, value: u32, mask: u32, nb: u32, j: u32)
    by (bit_vector)
    requires
        1 <= nb <= 16,
        mask == ((1u32 << nb) - 1) as u32,
        nb <= j < 32,
    ensures
        bit_of((acc << nb) | (value & mask), j) == bit_of(acc, (j - nb) as u32),
{
}

proof fn lemma_extract(acc: u32, m: u32)
    by (bit_vector)
    requires
        m <= 24,
    ensures
        (acc >> m) & 0xFF == weigh(bit_of(acc, (m + 7) as u32), 128) + weigh(
            bit_of(acc, (m + 6) as u32),
            64,
        ) + weigh(bit_of(acc, (m + 5) as u32), 32) + weigh(bit_of(acc, (m + 4) as u32), 16) + weigh(
            bit_of(acc, (m + 3) as u32),
            8,
        ) + weigh(bit_of(acc, (m + 2) as u32), 4) + weigh(bit_of(acc, (m + 1) as u32), 2) + weigh(
            bit_of(acc, m),
            1,
        ),
{
}

proof fn lemma_pad(acc: u32, n: u32)
    by (bit_vector)
    requires
        1 <= n <= 7,
    ensures
        (acc << ((8 - n) as u32)) & 0xFF == weigh(bit_of(acc, (n - 1) as u32), 128) + weigh(
            n >= 2 && bit_of(acc, (n - 2) as u32),
            64,
        ) + weigh(n >= 3 && bit_of(acc, (n - 3) as u32), 32) + weigh(
            n >= 4 && bit_of(acc, (n - 4) as u32),
            16,
        ) + weigh(n >= 5 && bit_of(acc, (n - 5) as u32), 8) + weigh(
            n >= 6 && bit_of(acc, (n - 6) as u32),
            4,
        ) + weigh(n >= 7 && bit_of(acc, (n - 7) as u32), 2),
{
}

/// Frame packer for SBC encoding: a shift register that collects bits and
/// hands out whole bytes.
pub struct FramePacker {
    bit_buffer: u32,
    bits_in_buffer: u8,
}

impl FramePacker {
    /// Whether the shift register is empty.
    pub closed spec fn is_reset(&self) -> bool {
        self.bit_buffer == 0 && self.bits_in_buffer == 0
    }

    /// The register holds the last `pending` bits of `stream` in its low
    /// bits, and `out` holds all bytes of the stream before them from
    /// offset 4 up to `pos`.
    pub closed spec fn holds(&self, out: Seq<u8>, pos: int, stream: Seq<bool>, pending: int) -> bool {
        &&& self.bits_in_buffer == pending
        &&& 0 <= pending <= 31
        &&& 4 <= pos <= out.len()
        &&& stream.len() == 8 * (pos - 4) + pending
        &&& forall|k: int| 0 <= k < pos - 4 ==> #[trigger] out[4 + k] == packed_byte(stream, k)
        &&& forall|i: int|
            stream.len() - pending <= i < stream.len() ==> #[trigger] stream[i] == bit_of(
                self.bit_buffer,
                (stream.len() - 1 - i) as u32,
            )
    }

    /// Create a new frame packer.
    pub fn new() -> (r: Self)
        ensures
            r.is_reset(),
    {
        FramePacker { bit_buffer: 0, bits_in_buffer: 0 }
    }

    /// Reset the bit buffer.
    fn reset(&mut self)
        ensures
            final(self).is_reset(),
    {
        self.bit_buffer = 0;
        self.bits_in_buffer = 0;
    }

    /// Append the low `num_bits` bits of `value` to the stream and write
    /// out every byte that is complete.
    fn write_bits(
        &mut self,
        output: &mut [u8],
        pos: &mut usize,
        value: u32,
        num_bits: u8,
        Ghost(stream): Ghost<Seq<bool>>,
    )
        requires
            1 <= num_bits <= 16,
            old(self).bits_in_buffer < 8,
            old(self).holds(
                old(output)@,
                *old(pos) as int,
                stream,
                old(self).bits_in_buffer as int,
            ),
            4 + (stream.len() + num_bits) / 8 <= old(output).len(),
        ensures
            final(self).bits_in_buffer < 8,
            final(self).holds(
                final(output)@,
                *final(pos) as int,
                stream + field_bits(value, num_bits as int),
                final(self).bits_in_buffer as int,
            ),
            final(output).len() == old(output).len(),
            *old(pos) <= *final(pos),
            forall|k: int|
                0 <= k < old(output).len() && !(*old(pos) <= k < *final(pos)) ==> final(output)[k]
                    == old(output)[k],
    {
        let ghost appended = stream + field_bits(value, num_bits as int);
        let ghost acc = self.bit_buffer;
        let ghost pending = self.bits_in_buffer as int;
        let ghost out0 = output@;
        assert(1 <= num_bits <= 16 ==> (1u32 << num_bits) >= 1) by (bit_vector);
        let mask: u32 = (1u32 << num_bits) - 1;

        self.bit_buffer = (self.bit_buffer << num_bits) | (value & mask);
        self.bits_in_buffer = self.bits_in_buffer + num_bits;
        let ghost total = pending + num_bits;
        proof {
            assert forall|i: int| appended.len() - total <= i < appended.len() implies #[trigger] appended[i]
                == bit_of(self.bit_buffer, (appended.len() - 1 - i) as u32) by {
                let j = appended.len() - 1 - i;
                if j < num_bits {
                    lemma_append_low(acc, value, mask, num_bits as u32, j as u32);
                    assert(appended[i] == field_bits(value, num_bits as int)[i - stream.len()]);
                } else {
                    lemma_append_high(acc, value, mask, num_bits as u32, j as u32);
                    assert(appended[i] == stream[i]);
                }
            }
            assert forall|k: int| 0 <= k < *pos - 4 implies #[trigger] output@[4 + k]
                == packed_byte(appended, k) by {
                assert(output@[4 + k] == packed_byte(stream, k));
                assert(forall|i: int| 0 <= i < stream.len() ==> appended[i] == stream[i]);
            }
        }

        // At most 23 bits are pending, so at most two bytes leave.
        let mut flushed: usize = 0;
        while flushed < 4 && self.bits_in_buffer >= 8
            invariant
                flushed <= 4,
                self.bits_in_buffer + 8 * flushed == total,
                total <= 23,
                output.len() == old(output).len(),
                *pos == *old(pos) + flushed,
                4 + appended.len() / 8 <= output.len(),
                appended.len() == 8 * (*old(pos) - 4) + total,
                self.holds(output@, *pos as int, appended, self.bits_in_buffer as int),
                forall|k: int|
                    0 <= k < output.len() && !(*old(pos) <= k < *pos) ==> output[k] == out0[k],
                out0 == old(output)@,
            decreases 4 - flushed,
        {
            let ghost before = output@;
            let ghost m_old = self.bits_in_buffer as int;
            self.bits_in_buffer = self.bits_in_buffer - 8;
            let byte: u8 = ((self.bit_buffer >> self.bits_in_buffer) & 0xFF) as u8;
            proof {
                lemma_extract(self.bit_buffer, self.bits_in_buffer as u32);
                let k0 = *pos - 4;
                let base = appended.len() - m_old;
                assert(base == 8 * k0);
                assert(stream_bit(appended, 8 * k0 + 0) == bit_of(
                    self.bit_buffer,
                    (m_old - 1) as u32,
                ));
                assert(stream_bit(appended, 8 * k0 + 1) == bit_of(
                    self.bit_buffer,
                    (m_old - 2) as u32,
                ));
                assert(stream_bit(appended, 8 * k0 + 2) == bit_of(
                    self.bit_buffer,
                    (m_old - 3) as u32,
                ));
                assert(stream_bit(appended, 8 * k0 + 3) == bit_of(
                    self.bit_buffer,
                    (m_old - 4) as u32,
                ));
                assert(stream_bit(appended, 8 * k0 + 4) == bit_of(
                    self.bit_buffer,
                    (m_old - 5) as u32,
                ));
                assert(stream_bit(appended, 8 * k0 + 5) == bit_of(
                    self.bit_buffer,
                    (m_old - 6) as u32,
                ));
                assert(stream_bit(appended, 8 * k0 + 6) == bit_of(
                    self.bit_buffer,
                    (m_old - 7) as u32,
                ));
                assert(stream_bit(appended, 8 * k0 + 7) == bit_of(
                    self.bit_buffer,
                    (m_old - 8) as u32,
                ));
                assert(byte == packed_byte(appended, k0));
            }
            output[*pos] = byte;
            *pos = *pos + 1;
            flushed += 1;
            proof {
                assert forall|k: int| 0 <= k < *pos - 4 implies #[trigger] output@[4 + k]
                    == packed_byte(appended, k) by {
                    if k < *pos - 5 {
                        assert(before[4 + k] == packed_byte(appended, k));
                    }
                }
            }
        }
    }

    /// Write out the bits still pending, padded with zeros to a whole byte,
    /// and empty the register.
    fn flush(&mut self, output: &mut [u8], pos: &mut usize, Ghost(stream): Ghost<Seq<bool>>)
        requires
            old(self).bits_in_buffer < 8,
            old(self).holds(
                old(output)@,
                *old(pos) as int,
                stream,
                old(self).bits_in_buffer as int,
            ),
            4 + (stream.len() + 7) / 8 <= old(output).len(),
        ensures
            final(self).is_reset(),
            final(output).len() == old(output).len(),
            *final(pos) == 4 + (stream.len() + 7) / 8,
            *old(pos) <= *final(pos),
            forall|k: int| 0 <= k < *final(pos) - 4 ==> final(output)[4 + k] == packed_bytes(stream)[k],
            forall|k: int|
                0 <= k < old(output).len() && !(*old(pos) <= k < *final(pos)) ==> final(output)[k]
                    == old(output)[k],
    {
        let ghost before = output@;
        if self.bits_in_buffer > 0 {
            let padding: u8 = 8 - self.bits_in_buffer;
            let byte: u8 = ((self.bit_buffer << padding) & 0xFF) as u8;
            proof {
                let n = self.bits_in_buffer as int;
                lemma_pad(self.bit_buffer, self.bits_in_buffer as u32);
                let k0 = *pos - 4;
                assert(stream.len() == 8 * k0 + n);
                assert(stream_bit(stream, 8 * k0 + 0) == (0 < n && bit_of(
                    self.bit_buffer,
                    (n - 1) as u32,
                )));
                assert(stream_bit(stream, 8 * k0 + 1) == (1 < n && bit_of(
                    self.bit_buffer,
                    (n - 2) as u32,
                )));
                assert(stream_bit(stream, 8 * k0 + 2) == (2 < n && bit_of(
                    self.bit_buffer,
                    (n - 3) as u32,
                )));
                assert(stream_bit(stream, 8 * k0 + 3) == (3 < n && bit_of(
                    self.bit_buffer,
                    (n - 4) as u32,
                )));
                assert(stream_bit(stream, 8 * k0 + 4) == (4 < n && bit_of(
                    self.bit_buffer,
                    (n - 5) as u32,
                )));
                assert(stream_bit(stream, 8 * k0 + 5) == (5 < n && bit_of(
                    self.bit_buffer,
                    (n - 6) as u32,
                )));
                assert(stream_bit(stream, 8 * k0 + 6) == (6 < n && bit_of(
                    self.bit_buffer,
                    (n - 7) as u32,
                )));
                assert(!stream_bit(stream, 8 * k0 + 7));
                assert(byte == packed_byte(stream, k0));
            }
            output[*pos] = byte;
            *pos = *pos + 1;
        }
        proof {
            assert forall|k: int| 0 <= k < *pos - 4 implies output@[4 + k] == packed_bytes(
                stream,
            )[k] by {
                if k < *old(pos) - 4 {
                    assert(before[4 + k] == packed_byte(stream, k));
                }
            }
        }
        self.reset();
    }

    /// Number of bytes that `pack` writes for this geometry and allocation.
    pub fn frame_length(&self, config: &SbcConfig, bits: &SubbandTable) -> (size: usize)
        ensures
            size == packed_frame_len(*config, *bits),
            4 <= size <= 8192,
    {
        let num_subbands: usize = config.subbands.count();
        let num_blocks: usize = config.block_length.count();
        let num_channels: usize = config.channels() as usize;
        let ghost chs = num_channels as int;
        let ghost sbs = num_subbands as int;

        let mut header_bits: usize = if config.channel_mode == ChannelMode::JointStereo {
            num_subbands
        } else {
            0
        };
        let mut block_bits: usize = 0;
        let mut idx: usize = 0;
        while idx < 16
            invariant
                idx <= 16,
                chs == num_channels,
                sbs == num_subbands,
                header_bits == (if config.channel_mode == ChannelMode::JointStereo {
                    sbs
                } else {
                    0
                }) + scale_factor_len(chs, sbs, idx as int),
                header_bits <= 8 + 4 * idx,
                block_bits == block_len(*bits, chs, sbs, idx as int),
                block_bits <= 255 * idx,
            decreases 16 - idx,
        {
            let ch: usize = idx / 8;
            let sb: usize = idx % 8;
            if ch < num_channels && sb < num_subbands {
                header_bits += 4;
                block_bits += bits[ch][sb] as usize;
            }
            idx += 1;
        }
        assert(num_blocks * block_bits <= 16 * (255 * 16)) by (nonlinear_arith)
            requires
                num_blocks <= 16,
                block_bits <= 255 * 16,
        ;
        4 + (header_bits + num_blocks * block_bits + 7) / 8
    }

    /// Pack an SBC frame into `output` and return the number of bytes
    /// written.
    ///
    /// `join_flags` holds one bit per subband, `scale_factors` and `bits`
    /// the scale factor and bit width of each channel/subband, `samples`
    /// the quantized samples.
    pub fn pack(
        &mut self,
        config: &SbcConfig,
        join_flags: u8,
        scale_factors: &SubbandTable,
        bits: &SubbandTable,
        samples: &QuantizedFrame,
        output: &mut [u8],
    ) -> (size: usize)
        requires
            old(output).len() >= packed_frame_len(*config, *bits),
            forall|i: int|
                cell_active(
                    i,
                    config.spec_channels() as int,
                    config.subbands.spec_count() as int,
                ) ==> bits[i / 8][i % 8] <= 16,
        ensures
            size == packed_frame_len(*config, *bits),
            final(output).len() == old(output).len(),
            final(output)@.subrange(0, size as int) == sbc_frame(
                *config,
                join_flags,
                *scale_factors,
                *bits,
                *samples,
            ),
            final(output)@.subrange(size as int, old(output).len() as int) == old(output)@.subrange(
                size as int,
                old(output).len() as int,
            ),
            final(self).is_reset(),
    {
        let num_subbands: usize = config.subbands.count();
        let num_blocks: usize = config.block_length.count();
        let num_channels: usize = config.channels() as usize;
        let ghost chs = num_channels as int;
        let ghost sbs = num_subbands as int;
        let ghost total = payload_len(*config, *bits);
        let ghost whole = block_len(*bits, chs, sbs, 16);
        proof {
            lemma_payload_bits_len(*config, join_flags, *scale_factors, *bits, *samples);
            lemma_block_len_monotone(*bits, chs, sbs, 0, 16);
            lemma_scale_factor_len_monotone(chs, sbs, 0, 16);
            assert(num_blocks * whole >= 0) by (nonlinear_arith)
                requires
                    num_blocks >= 0,
                    whole >= 0,
            ;
        }

        self.reset();
        let mut pos: usize = 0;

        // Header: sync word, geometry, bitpool, the checksum byte still zero.
        output[pos] = SBC_SYNCWORD;
        pos += 1;
        let byte1: u8 = (config.sampling_frequency.header_bits() << 6) | (
        config.block_length.header_bits() << 4) | (config.channel_mode.header_bits() << 2) | (
        config.allocation_method.header_bits() << 1) | config.subbands.header_bits();
        output[pos] = byte1;
        pos += 1;
        output[pos] = config.bitpool;
        pos += 1;
        let crc_pos: usize = pos;
        output[pos] = 0;
        pos += 1;

        let ghost mut stream: Seq<bool> = Seq::empty();

        // Joint stereo flags.
        if config.channel_mode == ChannelMode::JointStereo {
            self.write_bits(output, &mut pos, join_flags as u32, num_subbands as u8, Ghost(stream));
            proof {
                stream = stream + field_bits(join_flags as u32, num_subbands as int);
            }
        }
        assert(stream =~= join_bits(*config, join_flags));
        let ghost joins = join_bits(*config, join_flags);

        // Scale factors.
        let mut idx: usize = 0;
        while idx < 16
            invariant
                idx <= 16,
                chs == num_channels,
                sbs == num_subbands,
                chs == config.spec_channels(),
                sbs == config.subbands.spec_count(),
                num_blocks == config.block_length.spec_count(),
                total == payload_len(*config, *bits),
                whole == block_len(*bits, chs, sbs, 16),
                num_blocks * whole >= 0,
                joins == join_bits(*config, join_flags),
                output.len() == old(output).len(),
                output.len() >= 4 + (total + 7) / 8,
                self.bits_in_buffer < 8,
                self.holds(output@, pos as int, stream, self.bits_in_buffer as int),
                stream == joins + scale_factor_bits(*scale_factors, chs, sbs, idx as int),
                output[0] == 0x9C && output[1] == header_byte(*config) && output[2]
                    == config.bitpool && output[3] == 0,
                forall|k: int| pos <= k < output.len() ==> output[k] == old(output)[k],
            decreases 16 - idx,
        {
            let ch: usize = idx / 8;
            let sb: usize = idx % 8;
            if ch < num_channels && sb < num_subbands {
                proof {
                    lemma_scale_factor_bits_len(*scale_factors, chs, sbs, idx as int);
                    lemma_scale_factor_len_monotone(chs, sbs, idx + 1, 16);
                }
                self.write_bits(output, &mut pos, scale_factors[ch][sb] as u32, 4, Ghost(stream));
                proof {
                    let field = field_bits(scale_factors[ch as int][sb as int] as u32, 4);
                    assert((joins + scale_factor_bits(*scale_factors, chs, sbs, idx as int))
                        + field =~= joins + scale_factor_bits(
                        *scale_factors,
                        chs,
                        sbs,
                        idx + 1,
                    ));
                    stream = stream + field;
                }
            }
            idx += 1;
        }
        let ghost head = joins + scale_factor_bits(*scale_factors, chs, sbs, 16);
        proof {
            lemma_scale_factor_bits_len(*scale_factors, chs, sbs, 16);
            assert(stream =~= head + audio_bits(*bits, *samples, chs, sbs, 0));
        }

        // Audio samples, block by block.
        let mut blk: usize = 0;
        while blk < num_blocks
            invariant
                blk <= num_blocks <= 16,
                chs == num_channels,
                sbs == num_subbands,
                chs == config.spec_channels(),
                sbs == config.subbands.spec_count(),
                num_blocks == config.block_length.spec_count(),
                total == payload_len(*config, *bits),
                whole == block_len(*bits, chs, sbs, 16),
                num_blocks * whole >= 0,
                head == joins + scale_factor_bits(*scale_factors, chs, sbs, 16),
                joins == join_bits(*config, join_flags),
                head.len() + num_blocks * whole == total,
                output.len() == old(output).len(),
                output.len() >= 4 + (total + 7) / 8,
                self.bits_in_buffer < 8,
                self.holds(output@, pos as int, stream, self.bits_in_buffer as int),
                stream == head + audio_bits(*bits, *samples, chs, sbs, 16 * blk),
                output[0] == 0x9C && output[1] == header_byte(*config) && output[2]
                    == config.bitpool && output[3] == 0,
                forall|k: int| pos <= k < output.len() ==> output[k] == old(output)[k],
                forall|i: int| cell_active(i, chs, sbs) ==> bits[i / 8][i % 8] <= 16,
            decreases num_blocks - blk,
        {
            let mut idx: usize = 0;
            while idx < 16
                invariant
                    idx <= 16,
                    blk < num_blocks <= 16,
                    chs == num_channels,
                    sbs == num_subbands,
                    total == payload_len(*config, *bits),
                    whole == block_len(*bits, chs, sbs, 16),
                    num_blocks * whole >= 0,
                    head.len() + num_blocks * whole == total,
                    output.len() == old(output).len(),
                    output.len() >= 4 + (total + 7) / 8,
                    self.bits_in_buffer < 8,
                    self.holds(output@, pos as int, stream, self.bits_in_buffer as int),
                    stream == head + audio_bits(*bits, *samples, chs, sbs, 16 * blk + idx),
                    output[0] == 0x9C && output[1] == header_byte(*config) && output[2]
                        == config.bitpool && output[3] == 0,
                    forall|k: int| pos <= k < output.len() ==> output[k] == old(output)[k],
                    forall|i: int| cell_active(i, chs, sbs) ==> bits[i / 8][i % 8] <= 16,
                decreases 16 - idx,
            {
                let ch: usize = idx / 8;
                let sb: usize = idx % 8;
                let ghost n = 16 * blk + idx;
                assert(n / 16 == blk && n % 16 == idx);
                if ch < num_channels && sb < num_subbands {
                    let bit_count: u8 = bits[ch][sb];
                    assert(cell_active(idx as int, chs, sbs));
                    if bit_count > 0 {
                        proof {
                            lemma_audio_bits_len(*bits, *samples, chs, sbs, n as int);
                            lemma_block_len_monotone(*bits, chs, sbs, idx + 1, 16);
                            assert(blk * whole + whole <= num_blocks * whole) by (nonlinear_arith)
                                requires
                                    blk < num_blocks,
                                    whole >= 0,
                            ;
                        }
                        self.write_bits(
                            output,
                            &mut pos,
                            samples[ch][blk][sb] as u32,
                            bit_count,
                            Ghost(stream),
                        );
                        proof {
                            let field = field_bits(
                                samples[ch as int][blk as int][sb as int] as u32,
                                bit_count as int,
                            );
                            assert((head + audio_bits(*bits, *samples, chs, sbs, n as int))
                                + field =~= head + audio_bits(*bits, *samples, chs, sbs, n + 1));
                            stream = stream + field;
                        }
                    }
                }
                idx += 1;
            }
            blk += 1;
        }

        // Flush the last partial byte, then sign the frame.
        proof {
            lemma_audio_bits_len(*bits, *samples, chs, sbs, 16 * num_blocks);
            assert(stream.len() == total);
            assert(stream =~= payload_bits(*config, join_flags, *scale_factors, *bits, *samples));
        }
        self.flush(output, &mut pos, Ghost(stream));
        let ghost unsigned = unsigned_frame(*config, join_flags, *scale_factors, *bits, *samples);
        assert(output@.subrange(0, pos as int) =~= unsigned);
        let crc: u8 = self.calc_crc(&output[0..pos]);
        output[crc_pos] = crc;
        proof {
            assert(output@.subrange(0, pos as int) =~= unsigned.update(3, crc));
            assert(output@.subrange(pos as int, output.len() as int) =~= old(output)@.subrange(
                pos as int,
                output.len() as int,
            ));
        }
        pos
    }

    /// Calculate the CRC-8 of a frame: over all of `data` but the sync word
    /// at byte 0 and the checksum at byte 3.
    pub fn calc_crc(&self, data: &[u8]) -> (crc: u8)
        ensures
            crc == crc_over(data@, data.len() as int),
    {
        let mut crc: u8 = CRC_INIT;
        let mut i: usize = 1;
        while i < data.len()
            invariant
                1 <= i,
                i <= data.len() || (data.len() == 0 && i == 1),
                crc == crc_over(data@, i as int),
            decreases data.len() - i,
        {
            if i != 3 {
                let byte: u8 = data[i];
                let mut bit: u8 = 0;
                while bit < 8
                    invariant
                        bit <= 8,
                        i < data.len(),
                        byte == data[i as int],
                        crc == crc_byte(crc_over(data@, i as int), byte, bit as int),
                    decreases 8 - bit,
                {
                    let msb: u8 = (crc >> 7) & 1;
                    let input: u8 = (byte >> (7 - bit)) & 1;
                    crc = crc << 1;
                    if input ^ msb == 1 {
                        crc = crc ^ CRC_POLY;
                    }
                    bit += 1;
                }
            }
            i += 1;
        }
        crc
    }
}

impl Default for FramePacker {
    fn default() -> (r: Self)
        ensures
            r.is_reset(),
    {
        FramePacker::new()
    }
}

} // verus!
