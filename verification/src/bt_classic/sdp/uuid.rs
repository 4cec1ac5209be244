//! SDP UUIDs for audio profiles.

use vstd::prelude::*;

verus! {

/// SDP protocol
pub const SDP: u16 = 0x0001;

/// L2CAP protocol
pub const L2CAP: u16 = 0x0100;

/// AVDTP protocol
pub const AVDTP: u16 = 0x0019;

/// Audio Source service class
pub const AUDIO_SOURCE: u16 = 0x110A;

/// Audio Sink service class
pub const AUDIO_SINK: u16 = 0x110B;

/// Advanced Audio Distribution profile
pub const ADVANCED_AUDIO: u16 = 0x110D;

} // verus!
