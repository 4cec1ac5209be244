//! USB Audio Class 2.0 (UAC2) device side: the descriptors and the
//! parameters of the audio stream a host sends.

pub mod class;
pub mod descriptor;

pub use descriptor::{AudioControlDescriptor, AudioStreamingDescriptor, Uac2Config};

use vstd::prelude::*;

verus! {

/// Maximum USB audio packet size (48kHz stereo 16-bit @ 1ms = 192 bytes +
/// margin).
pub const MAX_USB_AUDIO_PACKET: usize = 196;

/// Audio format type.
#[derive(Debug, Clone, Copy, PartialEq, Eq, Structural)]
pub enum AudioFormat {
    /// PCM audio (uncompressed)
    Pcm,
    /// IEEE float
    IeeeFloat,
}

impl Default for AudioFormat {
    fn default() -> (r: Self)
        ensures
            r == AudioFormat::Pcm,
    {
        AudioFormat::Pcm
    }
}

/// Sample rate.
#[derive(Debug, Clone, Copy, PartialEq, Eq, Structural)]
pub enum SampleRate {
    /// 16 kHz
    Rate16000,
    /// 32 kHz
    Rate32000,
    /// 44.1 kHz (CD quality)
    Rate44100,
    /// 48 kHz
    Rate48000,
}

impl SampleRate {
    pub open spec fn spec_hz(&self) -> u32 {
        match self {
            SampleRate::Rate16000 => 16000,
            SampleRate::Rate32000 => 32000,
            SampleRate::Rate44100 => 44100,
            SampleRate::Rate48000 => 48000,
        }
    }

    /// Get the rate in Hz.
    #[verifier::when_used_as_spec(spec_hz)]
    pub fn hz(&self) -> (r: u32)
        ensures
            r == self.spec_hz(),
    {
        match self {
            SampleRate::Rate16000 => 16000,
            SampleRate::Rate32000 => 32000,
            SampleRate::Rate44100 => 44100,
            SampleRate::Rate48000 => 48000,
        }
    }

    /// Calculate bytes per USB frame (1ms): whole samples per millisecond,
    /// times the channels, times the whole bytes of a sample.
    pub fn bytes_per_frame(&self, channels: u8, bits: u8) -> (r: usize)
        ensures
            r == (self.spec_hz() / 1000) * channels * (bits / 8),
    {
        let samples_per_frame: u32 = self.hz() / 1000;
        assert((samples_per_frame as int) * (channels as int) <= 48 * 255) by (nonlinear_arith)
            requires
                samples_per_frame <= 48,
                channels <= 255,
        ;
        assert((samples_per_frame as int) * (channels as int) * ((bits / 8) as int) <= 48 * 255
            * 31) by (nonlinear_arith)
            requires
                0 <= (samples_per_frame as int) * (channels as int) <= 48 * 255,
                0 <= (bits / 8) as int <= 31,
        ;
        (samples_per_frame as usize) * (channels as usize) * (bits as usize / 8)
    }
}

impl Default for SampleRate {
    fn default() -> (r: Self)
        ensures
            r == SampleRate::Rate44100,
    {
        SampleRate::Rate44100
    }
}

/// USB Audio streaming state.
#[derive(Debug, Clone, Copy, PartialEq, Eq, Structural)]
pub enum StreamState {
    /// Idle, not streaming
    Idle,
    /// Streaming active
    Active,
    /// Underrun detected
    Underrun,
    /// Overrun detected
    Overrun,
}

impl Default for StreamState {
    fn default() -> (r: Self)
        ensures
            r == StreamState::Idle,
    {
        StreamState::Idle
    }
}

/// USB Audio receiver statistics.
#[derive(Debug, Clone, Copy, PartialEq, Eq, Structural)]
pub struct AudioStats {
    /// Total packets received
    pub packets_received: u32,
    /// Total samples received
    pub samples_received: u64,
    /// Underrun count
    pub underruns: u32,
    /// Overrun count
    pub overruns: u32,
}

impl Default for AudioStats {
    fn default() -> (r: Self)
        ensures
            r == (AudioStats { packets_received: 0, samples_received: 0, underruns: 0, overruns: 0 }),
    {
        AudioStats { packets_received: 0, samples_received: 0, underruns: 0, overruns: 0 }
    }
}

} // verus!
