use a2dp_source::sbc_encoder::frame::{FramePacker, SBC_SYNCWORD};
use a2dp_source::sbc_encoder::{
    AllocationMethod, BlockLength, ChannelMode, SamplingFrequency, SbcConfig, Subbands,
};

const MAX_SUBBANDS: usize = 8;
const MAX_BLOCKS: usize = 16;
const MAX_CHANNELS: usize = 2;

#[test]
fn test_frame_packer_creation() {
    let _packer = FramePacker::new();
}

#[test]
fn test_pack_header() {
    let mut packer = FramePacker::new();
    let config = SbcConfig::default();

    let scale_factors = [[0u8; MAX_SUBBANDS]; MAX_CHANNELS];
    let bits = [[0u8; MAX_SUBBANDS]; MAX_CHANNELS];
    let samples = [[[0u16; MAX_SUBBANDS]; MAX_BLOCKS]; MAX_CHANNELS];

    let mut output = [0u8; 512];
    let size = packer.pack(&config, 0, &scale_factors, &bits, &samples, &mut output);

    // Check sync word
    assert_eq!(output[0], SBC_SYNCWORD, "Sync word should be 0x9C");

    // Check bitpool
    assert_eq!(output[2], config.bitpool, "Bitpool should match config");

    // Size should be reasonable
    assert!(size >= 4 && size <= 512, "Frame size should be reasonable");
}

#[test]
fn test_pack_with_data() {
    let mut packer = FramePacker::new();
    let config = SbcConfig::default();

    // Non-zero scale factors and bits
    let scale_factors = [[5u8; MAX_SUBBANDS]; MAX_CHANNELS];
    let mut bits = [[0u8; MAX_SUBBANDS]; MAX_CHANNELS];
    bits[0][0] = 4;
    bits[0][1] = 4;
    bits[1][0] = 4;
    bits[1][1] = 4;

    // Some sample data
    let mut samples = [[[0u16; MAX_SUBBANDS]; MAX_BLOCKS]; MAX_CHANNELS];
    for blk in 0..16 {
        samples[0][blk][0] = 7;
        samples[0][blk][1] = 8;
        samples[1][blk][0] = 7;
        samples[1][blk][1] = 8;
    }

    let mut output = [0u8; 512];
    let size = packer.pack(&config, 0, &scale_factors, &bits, &samples, &mut output);

    assert!(size > 4, "Should have data beyond header");
    assert_eq!(output[0], SBC_SYNCWORD);
}

#[test]
fn test_pack_joint_stereo() {
    let mut packer = FramePacker::new();
    let config = SbcConfig {
        channel_mode: ChannelMode::JointStereo,
        ..Default::default()
    };

    let scale_factors = [[5u8; MAX_SUBBANDS]; MAX_CHANNELS];
    let bits = [[2u8; MAX_SUBBANDS]; MAX_CHANNELS];
    let samples = [[[1u16; MAX_SUBBANDS]; MAX_BLOCKS]; MAX_CHANNELS];

    let mut output = [0u8; 512];
    let join_flags = 0b11111110; // All but last subband joined

    let size = packer.pack(
        &config,
        join_flags,
        &scale_factors,
        &bits,
        &samples,
        &mut output,
    );

    assert!(size > 4);
    assert_eq!(output[0], SBC_SYNCWORD);
}

#[test]
fn test_crc_calculation() {
    let packer = FramePacker::new();

    // Simple test data
    let data = [SBC_SYNCWORD, 0x35, 0x35, 0x00, 0x00, 0x00, 0x00, 0x00];

    let crc = packer.calc_crc(&data);

    // CRC should be non-zero for non-trivial data
    // Exact value depends on the polynomial and initial value
    assert!(crc != 0 || data[1..3].iter().all(|&x| x == 0));
}

#[test]
fn test_crc_exact_values() {
    let packer = FramePacker::new();
    let data = [0x9C, 0x35, 0x35, 0x00, 0x00, 0x00, 0x00, 0x00];
    assert_eq!(packer.calc_crc(&data), 0x4A);
    // The sync word and the checksum byte are not covered.
    let other = [0x00, 0x35, 0x35, 0xFF, 0x00, 0x00, 0x00, 0x00];
    assert_eq!(packer.calc_crc(&other), 0x4A);
    // Nothing covered: the initial value.
    assert_eq!(packer.calc_crc(&[]), 0x0F);
    assert_eq!(packer.calc_crc(&[0x9C]), 0x0F);
}

#[test]
fn test_pack_with_data_exact_bytes() {
    let mut packer = FramePacker::new();
    let config = SbcConfig::default();
    let scale_factors = [[5u8; 8]; 2];
    let mut bits = [[0u8; 8]; 2];
    bits[0][0] = 4;
    bits[0][1] = 4;
    bits[1][0] = 4;
    bits[1][1] = 4;
    let mut samples = [[[0u16; 8]; 16]; 2];
    for blk in 0..16 {
        samples[0][blk][0] = 7;
        samples[0][blk][1] = 8;
        samples[1][blk][0] = 7;
        samples[1][blk][1] = 8;
    }
    let mut output = [0xEEu8; 64];
    let size = packer.pack(&config, 0, &scale_factors, &bits, &samples, &mut output);
    assert_eq!(size, 45);
    assert_eq!(size, packer.frame_length(&config, &bits));
    let mut expected = vec![0x9C, 0xBF, 0x35, 0x2A, 0x00];
    expected.extend([0x55u8; 8]);
    expected.extend([0x78u8; 32]);
    assert_eq!(&output[..45], &expected[..]);
    // Nothing after the frame is touched.
    assert!(output[45..].iter().all(|&b| b == 0xEE));
}

#[test]
fn test_pack_mono_exact_bytes() {
    let mut packer = FramePacker::new();
    let config = SbcConfig::new(
        SamplingFrequency::Freq16000,
        ChannelMode::Mono,
        BlockLength::Blocks4,
        Subbands::Sub4,
        AllocationMethod::Snr,
        10,
    );
    let scale_factors = [[1, 2, 3, 4, 0, 0, 0, 0], [0u8; 8]];
    let bits = [[3, 0, 5, 2, 0, 0, 0, 0], [0u8; 8]];
    let mut samples = [[[0u16; 8]; 16]; 2];
    samples[0][0] = [5, 0, 17, 2, 0, 0, 0, 0];
    samples[0][1] = [1, 0, 31, 0, 0, 0, 0, 0];
    samples[0][2] = [7, 0, 0, 3, 0, 0, 0, 0];
    samples[0][3] = [2, 0, 9, 1, 0, 0, 0, 0];
    let mut output = [0u8; 11];
    let size = packer.pack(&config, 0, &scale_factors, &bits, &samples, &mut output);
    assert_eq!(size, 11);
    assert_eq!(
        output,
        [0x9C, 0x00, 0x0A, 0x28, 0x12, 0x34, 0xB1, 0x8F, 0xCE, 0x0D, 0x25]
    );
}

#[test]
fn test_pack_silent_frame_exact_bytes() {
    let mut packer = FramePacker::new();
    let config = SbcConfig::default();
    let mut output = [0u8; 13];
    let size = packer.pack(
        &config,
        0,
        &[[0u8; 8]; 2],
        &[[0u8; 8]; 2],
        &[[[0u16; 8]; 16]; 2],
        &mut output,
    );
    assert_eq!(size, 13);
    assert_eq!(output, [0x9C, 0xBF, 0x35, 0x9C, 0, 0, 0, 0, 0, 0, 0, 0, 0]);
}

#[test]
fn test_pack_checksum_matches_calc_crc() {
    let mut packer = FramePacker::new();
    let config = SbcConfig::default();
    let scale_factors = [[7u8; 8]; 2];
    let bits = [[3u8; 8]; 2];
    let samples = [[[5u16; 8]; 16]; 2];
    let mut output = [0u8; 512];
    let size = packer.pack(&config, 0xAA, &scale_factors, &bits, &samples, &mut output);
    // 72 header bits and 16 * 48 sample bits.
    assert_eq!(size, 4 + 9 + 96);
    assert_eq!(output[3], packer.calc_crc(&output[..size]));
    assert_eq!(output[4], 0xAA);
}

#[test]
fn test_pack_twice_gives_the_same_frame() {
    let mut packer = FramePacker::new();
    let config = SbcConfig::default();
    let scale_factors = [[7u8; 8]; 2];
    let bits = [[3u8; 8]; 2];
    let samples = [[[5u16; 8]; 16]; 2];
    let mut first = [0u8; 512];
    let mut second = [0u8; 512];
    let a = packer.pack(&config, 0, &scale_factors, &bits, &samples, &mut first);
    let b = packer.pack(&config, 0, &scale_factors, &bits, &samples, &mut second);
    assert_eq!(a, b);
    assert_eq!(first[..], second[..]);
}
