//! USB Audio Class codes.

use vstd::prelude::*;

verus! {

/// Audio class
pub const AUDIO: u8 = 0x01;

/// Audio Control subclass
pub const AUDIO_CONTROL: u8 = 0x01;

/// Audio Streaming subclass
pub const AUDIO_STREAMING: u8 = 0x02;

/// UAC2 protocol
pub const UAC2_PROTOCOL: u8 = 0x20;

} // verus!
