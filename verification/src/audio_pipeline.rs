//! Audio pipeline between USB reception and SBC encoding: the format of
//! the stream and the ring buffer that carries it.

use vstd::prelude::*;

pub mod counter;
pub mod ring_buffer;

pub use ring_buffer::RingBuffer;

verus! {

/// Audio format description.
#[derive(Debug, Clone, Copy, PartialEq, Eq, Structural)]
pub struct AudioFormat {
    /// Sample rate in Hz
    pub sample_rate: u32,
    /// Number of channels (1 = mono, 2 = stereo)
    pub channels: u8,
    /// Bits per sample (typically 16)
    pub bits_per_sample: u8,
}

impl Default for AudioFormat {
    /// 44.1 kHz, two channels of 16 bits.
    fn default() -> (r: Self)
        ensures
            r == (AudioFormat { sample_rate: 44100, channels: 2, bits_per_sample: 16 }),
    {
        AudioFormat { sample_rate: 44100, channels: 2, bits_per_sample: 16 }
    }
}

impl AudioFormat {
    pub open spec fn spec_bytes_per_sample(&self) -> int {
        self.channels * (self.bits_per_sample / 8)
    }

    /// Calculate bytes per sample (all channels): the channels times the
    /// whole bytes of one channel's sample.
    pub fn bytes_per_sample(&self) -> (r: usize)
        ensures
            r == self.spec_bytes_per_sample(),
            r <= 255 * 31,
    {
        assert((self.channels as int) * ((self.bits_per_sample / 8) as int) <= 255 * 31)
            by (nonlinear_arith)
            requires
                self.channels <= 255,
                0 <= (self.bits_per_sample / 8) as int <= 31,
        ;
        (self.channels as usize) * (self.bits_per_sample as usize / 8)
    }

    /// Calculate bytes per second: the sample rate times the bytes per
    /// sample, which must fit the machine word.
    pub fn bytes_per_second(&self) -> (r: usize)
        requires
            self.sample_rate * self.spec_bytes_per_sample() <= usize::MAX,
        ensures
            r == self.sample_rate * self.spec_bytes_per_sample(),
    {
        self.sample_rate as usize * self.bytes_per_sample()
    }
}

} // verus!
