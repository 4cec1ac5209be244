//! USB Audio Class 2.0 descriptors.

use vstd::prelude::*;

verus! {

/// UAC2 device configuration.
#[derive(Debug, Clone)]
pub struct Uac2Config {
    /// Device name
    pub name: &'static str,
    /// Vendor ID
    pub vid: u16,
    /// Product ID
    pub pid: u16,
    /// Number of channels
    pub channels: u8,
    /// Bits per sample
    pub bit_depth: u8,
    /// Supported sample rates
    pub sample_rates: &'static [u32],
}

/// The sample rates of the default configuration.
pub const DEFAULT_SAMPLE_RATES: [u32; 2] = [44100, 48000];

impl Default for Uac2Config {
    /// "Pico A2DP Audio", the pid.codes test vendor ID, two channels of 16
    /// bits at 44.1 and 48 kHz.
    fn default() -> (r: Self)
        ensures
            r.name@ == "Pico A2DP Audio"@,
            r.vid == 0x1209,
            r.pid == 0xA2D0,
            r.channels == 2,
            r.bit_depth == 16,
            r.sample_rates@ == seq![44100u32, 48000u32],
    {
        let rates: &'static [u32] = default_sample_rates();
        Uac2Config {
            name: "Pico A2DP Audio",
            vid: 0x1209,
            pid: 0xA2D0,
            channels: 2,
            bit_depth: 16,
            sample_rates: rates,
        }
    }
}

/// The sample rates of the default configuration as a slice.
fn default_sample_rates() -> (r: &'static [u32])
    ensures
        r@ == seq![44100u32, 48000u32],
{
    let r: &'static [u32; 2] = &DEFAULT_SAMPLE_RATES;
    assert(r@ =~= seq![44100u32, 48000u32]);
    r
}

/// The standard interface descriptor of an audio interface: its number,
/// alternate setting, endpoint count and subclass, with the UAC2 protocol.
pub open spec fn interface_bytes(number: u8, alternate: u8, endpoints: u8, subclass: u8) -> Seq<u8> {
    seq![9u8, 4, number, alternate, endpoints, 0x01, subclass, 0x20, 0]
}

/// The class-specific Audio Control header: UAC 2.0, an I/O box, the total
/// length left at zero.
pub open spec fn control_header_bytes() -> Seq<u8> {
    seq![9u8, 0x24, 0x01, 0x00, 0x02, 0x08, 0, 0, 0]
}

/// The clock source: clock 1, internal and fixed.
pub open spec fn clock_source_bytes() -> Seq<u8> {
    seq![8u8, 0x24, 0x0A, 1, 0x01, 0x01, 0, 0]
}

/// The input terminal: terminal 1, USB streaming, on clock 1, left and
/// right of `channels` channels.
pub open spec fn input_terminal_bytes(channels: u8) -> Seq<u8> {
    seq![17u8, 0x24, 0x02, 1, 0x01, 0x01, 0, 1, channels, 0x03, 0x00, 0x00, 0x00, 0, 0, 0, 0]
}

/// The output terminal: terminal 2, a speaker, fed by terminal 1 on clock 1.
pub open spec fn output_terminal_bytes() -> Seq<u8> {
    seq![12u8, 0x24, 0x03, 2, 0x01, 0x03, 0, 1, 1, 0, 0, 0]
}

/// The Audio Control interface descriptors for `channels` channels: the
/// interface, the class-specific header, the clock source, the USB
/// streaming input terminal and the speaker output terminal.
pub open spec fn audio_control_bytes(channels: u8) -> Seq<u8> {
    interface_bytes(0, 0, 0, 0x01) + control_header_bytes() + clock_source_bytes()
        + input_terminal_bytes(channels) + output_terminal_bytes()
}

/// The zero-bandwidth alternate setting of the streaming interface.
pub open spec fn streaming_alt0_bytes(interface_num: u8) -> Seq<u8> {
    interface_bytes(interface_num, 0, 0, 0x02)
}

/// The largest isochronous packet: a millisecond of 48 kHz audio at two
/// bytes a sample, and four bytes of margin.
pub open spec fn max_packet(channels: u8) -> int {
    48 * channels * 2 + 4
}

/// The class-specific streaming interface descriptor: terminal 1, type I
/// PCM, left and right of `channels` channels.
pub open spec fn streaming_general_bytes(channels: u8) -> Seq<u8> {
    seq![16u8, 0x24, 0x01, 1, 0, 0x01, 0x01, 0x00, 0x00, 0x00, channels, 0x03, 0x00, 0x00, 0x00, 0]
}

/// The type I format descriptor: the whole bytes of a sample and its bits.
pub open spec fn format_bytes(bit_depth: u8) -> Seq<u8> {
    seq![6u8, 0x24, 0x02, 0x01, bit_depth / 8, bit_depth]
}

/// The isochronous, asynchronous endpoint with its largest packet and a
/// one-millisecond interval.
pub open spec fn endpoint_bytes(channels: u8, ep_addr: u8) -> Seq<u8> {
    seq![
        7u8,
        5,
        ep_addr,
        0x05,
        (max_packet(channels) % 256) as u8,
        (max_packet(channels) / 256) as u8,
        1,
    ]
}

/// The class-specific descriptor of the audio data endpoint.
pub open spec fn data_endpoint_bytes() -> Seq<u8> {
    seq![8u8, 0x25, 0x01, 0, 0, 0, 0, 0]
}

/// The active alternate setting of the streaming interface: the interface,
/// the class-specific general descriptor, the type I format, the
/// isochronous endpoint and its class-specific descriptor.
pub open spec fn streaming_alt1_bytes(
    channels: u8,
    bit_depth: u8,
    interface_num: u8,
    ep_addr: u8,
) -> Seq<u8> {
    interface_bytes(interface_num, 1, 1, 0x02) + streaming_general_bytes(channels) + format_bytes(
        bit_depth,
    ) + endpoint_bytes(channels, ep_addr) + data_endpoint_bytes()
}

/// Write `chunk` into `buf` at `pos` and return the position after it.
fn put(buf: &mut [u8], pos: usize, chunk: &[u8]) -> (next: usize)
    requires
        pos + chunk.len() <= old(buf).len(),
    ensures
        next == pos + chunk.len(),
        final(buf).len() == old(buf).len(),
        final(buf)@.subrange(0, next as int) == old(buf)@.subrange(0, pos as int) + chunk@,
        forall|k: int| next <= k < old(buf).len() ==> final(buf)[k] == old(buf)[k],
{
    let mut i: usize = 0;
    while i < chunk.len()
        invariant
            i <= chunk.len(),
            pos + chunk.len() <= buf.len(),
            buf.len() == old(buf).len(),
            forall|k: int|
                0 <= k < buf.len() ==> buf[k] == (if pos <= k < pos + i {
                    chunk[k - pos]
                } else {
                    old(buf)[k]
                }),
        decreases chunk.len() - i,
    {
        buf[pos + i] = chunk[i];
        i += 1;
    }
    assert(buf@.subrange(0, pos + chunk.len()) =~= old(buf)@.subrange(0, pos as int) + chunk@);
    pos + chunk.len()
}

/// Audio Control Interface descriptor builder.
pub struct AudioControlDescriptor {
    config: Uac2Config,
}

impl AudioControlDescriptor {
    /// The configuration the builder was made with.
    pub closed spec fn config(&self) -> Uac2Config {
        self.config
    }

    /// Create a new Audio Control descriptor builder.
    pub fn new(config: Uac2Config) -> (r: Self)
        ensures
            r.config() == config,
    {
        AudioControlDescriptor { config }
    }

    /// Build the descriptor bytes. Returns their number, 55; `buf` must
    /// hold at least that many.
    pub fn build(&self, buf: &mut [u8]) -> (n: usize)
        requires
            old(buf).len() >= 55,
        ensures
            n == 55,
            final(buf).len() == old(buf).len(),
            final(buf)@.subrange(0, 55) == audio_control_bytes(self.config().channels),
            final(buf)@.subrange(55, old(buf).len() as int) == old(buf)@.subrange(
                55,
                old(buf).len() as int,
            ),
    {
        let interface: [u8; 9] = [9, 4, 0, 0, 0, 0x01, 0x01, 0x20, 0];
        let header: [u8; 9] = [9, 0x24, 0x01, 0x00, 0x02, 0x08, 0, 0, 0];
        let clock: [u8; 8] = [8, 0x24, 0x0A, 1, 0x01, 0x01, 0, 0];
        let input: [u8; 17] = [
            17,
            0x24,
            0x02,
            1,
            0x01,
            0x01,
            0,
            1,
            self.config.channels,
            0x03,
            0x00,
            0x00,
            0x00,
            0,
            0,
            0,
            0,
        ];
        let output: [u8; 12] = [12, 0x24, 0x03, 2, 0x01, 0x03, 0, 1, 1, 0, 0, 0];
        assert(interface@ =~= interface_bytes(0, 0, 0, 0x01));
        assert(header@ =~= control_header_bytes());
        assert(clock@ =~= clock_source_bytes());
        assert(input@ =~= input_terminal_bytes(self.config.channels));
        assert(output@ =~= output_terminal_bytes());

        let mut pos: usize = 0;
        pos = put(buf, pos, &interface);
        assert(buf@.subrange(0, 9) =~= interface_bytes(0, 0, 0, 0x01));
        pos = put(buf, pos, &header);
        pos = put(buf, pos, &clock);
        pos = put(buf, pos, &input);
        pos = put(buf, pos, &output);
        assert(buf@.subrange(55, buf.len() as int) =~= old(buf)@.subrange(55, buf.len() as int));
        pos
    }
}

/// Audio Streaming Interface descriptor builder.
pub struct AudioStreamingDescriptor {
    config: Uac2Config,
}

impl AudioStreamingDescriptor {
    /// The configuration the builder was made with.
    pub closed spec fn config(&self) -> Uac2Config {
        self.config
    }

    /// Create a new Audio Streaming descriptor builder.
    pub fn new(config: Uac2Config) -> (r: Self)
        ensures
            r.config() == config,
    {
        AudioStreamingDescriptor { config }
    }

    /// Build the descriptor bytes for alternate setting 0 (zero
    /// bandwidth). Returns their number, 9; `buf` must hold at least that
    /// many.
    pub fn build_alt0(&self, buf: &mut [u8], interface_num: u8) -> (n: usize)
        requires
            old(buf).len() >= 9,
        ensures
            n == 9,
            final(buf).len() == old(buf).len(),
            final(buf)@.subrange(0, 9) == streaming_alt0_bytes(interface_num),
            final(buf)@.subrange(9, old(buf).len() as int) == old(buf)@.subrange(
                9,
                old(buf).len() as int,
            ),
    {
        let interface: [u8; 9] = [9, 4, interface_num, 0, 0, 0x01, 0x02, 0x20, 0];
        assert(interface@ =~= interface_bytes(interface_num, 0, 0, 0x02));
        let pos: usize = put(buf, 0, &interface);
        assert(buf@.subrange(0, 9) =~= streaming_alt0_bytes(interface_num));
        assert(buf@.subrange(9, buf.len() as int) =~= old(buf)@.subrange(9, buf.len() as int));
        pos
    }

    /// Build the descriptor bytes for alternate setting 1 (active
    /// streaming). Returns their number, 46; `buf` must hold at least that
    /// many.
    pub fn build_alt1(&self, buf: &mut [u8], interface_num: u8, ep_addr: u8) -> (n: usize)
        requires
            old(buf).len() >= 46,
        ensures
            n == 46,
            final(buf).len() == old(buf).len(),
            final(buf)@.subrange(0, 46) == streaming_alt1_bytes(
                self.config().channels,
                self.config().bit_depth,
                interface_num,
                ep_addr,
            ),
            final(buf)@.subrange(46, old(buf).len() as int) == old(buf)@.subrange(
                46,
                old(buf).len() as int,
            ),
    {
        let channels: u8 = self.config.channels;
        let bit_depth: u8 = self.config.bit_depth;
        let max_packet: u16 = 48 * (channels as u16) * 2 + 4;

        let interface: [u8; 9] = [9, 4, interface_num, 1, 1, 0x01, 0x02, 0x20, 0];
        let general: [u8; 16] = [
            16,
            0x24,
            0x01,
            1,
            0,
            0x01,
            0x01,
            0x00,
            0x00,
            0x00,
            channels,
            0x03,
            0x00,
            0x00,
            0x00,
            0,
        ];
        let format: [u8; 6] = [6, 0x24, 0x02, 0x01, bit_depth / 8, bit_depth];
        let endpoint: [u8; 7] = [
            7,
            5,
            ep_addr,
            0x05,
            (max_packet % 256) as u8,
            (max_packet / 256) as u8,
            1,
        ];
        let data_endpoint: [u8; 8] = [8, 0x25, 0x01, 0, 0, 0, 0, 0];
        assert(interface@ =~= interface_bytes(interface_num, 1, 1, 0x02));
        assert(general@ =~= streaming_general_bytes(channels));
        assert(format@ =~= format_bytes(bit_depth));
        assert(endpoint@ =~= endpoint_bytes(channels, ep_addr));
        assert(data_endpoint@ =~= data_endpoint_bytes());

        let mut pos: usize = 0;
        pos = put(buf, pos, &interface);
        assert(buf@.subrange(0, 9) =~= interface_bytes(interface_num, 1, 1, 0x02));
        pos = put(buf, pos, &general);
        pos = put(buf, pos, &format);
        pos = put(buf, pos, &endpoint);
        pos = put(buf, pos, &data_endpoint);
        assert(buf@.subrange(46, buf.len() as int) =~= old(buf)@.subrange(46, buf.len() as int));
        pos
    }
}

} // verus!
