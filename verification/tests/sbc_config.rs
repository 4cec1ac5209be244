use a2dp_source::sbc_encoder::{
    AllocationMethod, BlockLength, ChannelMode, SamplingFrequency, SbcConfig, Subbands,
    MAX_SBC_FRAME_SIZE, SAMPLES_PER_FRAME,
};

#[test]
fn test_default_config_is_valid() {
    let config = SbcConfig::default();
    assert!(config.is_valid());
}

#[test]
fn test_samples_per_frame() {
    let config = SbcConfig::default();
    // 16 blocks * 8 subbands = 128
    assert_eq!(config.samples_per_frame(), 128);
}

#[test]
fn test_channels() {
    assert_eq!(ChannelMode::Mono.channels(), 1);
    assert_eq!(ChannelMode::Stereo.channels(), 2);
    assert_eq!(ChannelMode::JointStereo.channels(), 2);
}

#[test]
fn test_bitrate_reasonable() {
    let config = SbcConfig::default();
    let bitrate = config.bitrate_kbps();
    // Should be somewhere between 100-400 kbps for typical settings
    assert!(bitrate >= 100 && bitrate <= 500);
}

#[test]
fn test_invalid_bitpool_zero() {
    let config = SbcConfig {
        bitpool: 0,
        ..Default::default()
    };
    assert!(!config.is_valid());
}

#[test]
fn test_default_config_fields() {
    let config = SbcConfig::default();
    assert_eq!(config.sampling_frequency, SamplingFrequency::Freq44100);
    assert_eq!(config.channel_mode, ChannelMode::JointStereo);
    assert_eq!(config.block_length, BlockLength::Blocks16);
    assert_eq!(config.subbands, Subbands::Sub8);
    assert_eq!(config.allocation_method, AllocationMethod::Loudness);
    assert_eq!(config.bitpool, 53);
    assert_eq!(SAMPLES_PER_FRAME, 128);
}

#[test]
fn test_new_keeps_fields() {
    let config = SbcConfig::new(
        SamplingFrequency::Freq16000,
        ChannelMode::Mono,
        BlockLength::Blocks4,
        Subbands::Sub4,
        AllocationMethod::Snr,
        10,
    );
    assert_eq!(config.sampling_frequency, SamplingFrequency::Freq16000);
    assert_eq!(config.channel_mode, ChannelMode::Mono);
    assert_eq!(config.block_length, BlockLength::Blocks4);
    assert_eq!(config.subbands, Subbands::Sub4);
    assert_eq!(config.allocation_method, AllocationMethod::Snr);
    assert_eq!(config.bitpool, 10);
    assert_eq!(config.channels(), 1);
    assert_eq!(config.samples_per_frame(), 16);
}

#[test]
fn test_header_bits_mapping() {
    assert_eq!(SamplingFrequency::Freq16000.header_bits(), 0);
    assert_eq!(SamplingFrequency::Freq32000.header_bits(), 1);
    assert_eq!(SamplingFrequency::Freq44100.header_bits(), 2);
    assert_eq!(SamplingFrequency::Freq48000.header_bits(), 3);
    assert_eq!(ChannelMode::Mono.header_bits(), 0);
    assert_eq!(ChannelMode::DualChannel.header_bits(), 1);
    assert_eq!(ChannelMode::Stereo.header_bits(), 2);
    assert_eq!(ChannelMode::JointStereo.header_bits(), 3);
    assert_eq!(BlockLength::Blocks4.header_bits(), 0);
    assert_eq!(BlockLength::Blocks8.header_bits(), 1);
    assert_eq!(BlockLength::Blocks12.header_bits(), 2);
    assert_eq!(BlockLength::Blocks16.header_bits(), 3);
    assert_eq!(Subbands::Sub4.header_bits(), 0);
    assert_eq!(Subbands::Sub8.header_bits(), 1);
    assert_eq!(AllocationMethod::Snr.header_bits(), 0);
    assert_eq!(AllocationMethod::Loudness.header_bits(), 1);
}

#[test]
fn test_counts_and_rates() {
    assert_eq!(SamplingFrequency::Freq16000.hz(), 16000);
    assert_eq!(SamplingFrequency::Freq32000.hz(), 32000);
    assert_eq!(SamplingFrequency::Freq44100.hz(), 44100);
    assert_eq!(SamplingFrequency::Freq48000.hz(), 48000);
    assert_eq!(BlockLength::Blocks4.count(), 4);
    assert_eq!(BlockLength::Blocks8.count(), 8);
    assert_eq!(BlockLength::Blocks12.count(), 12);
    assert_eq!(BlockLength::Blocks16.count(), 16);
    assert_eq!(Subbands::Sub4.count(), 4);
    assert_eq!(Subbands::Sub8.count(), 8);
    assert_eq!(ChannelMode::DualChannel.channels(), 2);
}

#[test]
fn test_max_bitpool_by_mode() {
    let mut config = SbcConfig::default();
    config.channel_mode = ChannelMode::Mono;
    config.subbands = Subbands::Sub4;
    assert_eq!(config.max_bitpool(), 64);
    config.subbands = Subbands::Sub8;
    assert_eq!(config.max_bitpool(), 128);
    config.channel_mode = ChannelMode::DualChannel;
    assert_eq!(config.max_bitpool(), 128);
    config.channel_mode = ChannelMode::Stereo;
    assert_eq!(config.max_bitpool(), 250);
    config.subbands = Subbands::Sub4;
    assert_eq!(config.max_bitpool(), 128);
    config.channel_mode = ChannelMode::JointStereo;
    config.subbands = Subbands::Sub8;
    assert_eq!(config.max_bitpool(), 250);
}

#[test]
fn test_validity_edges() {
    let mut config = SbcConfig::default();
    config.bitpool = 1;
    assert!(!config.is_valid());
    config.bitpool = 2;
    assert!(config.is_valid());
    config.bitpool = 250;
    assert!(config.is_valid());
    config.bitpool = 251;
    assert!(!config.is_valid());
    config.channel_mode = ChannelMode::Mono;
    config.bitpool = 128;
    assert!(config.is_valid());
    config.bitpool = 129;
    assert!(!config.is_valid());
}

#[test]
fn test_frame_size_exact_values() {
    // Joint stereo, 16 blocks, 8 subbands, bitpool 53: 4 + 10 + 106.
    let config = SbcConfig::default();
    assert_eq!(config.frame_size(), 120);
    assert_eq!(config.bitrate_kbps(), 330);

    // Mono, 4 blocks, 4 subbands, bitpool 10: 4 + 2 + 5.
    let small = SbcConfig::new(
        SamplingFrequency::Freq16000,
        ChannelMode::Mono,
        BlockLength::Blocks4,
        Subbands::Sub4,
        AllocationMethod::Snr,
        10,
    );
    assert_eq!(small.frame_size(), 11);
    assert_eq!(small.bitrate_kbps(), 88);

    // Stereo at the top of the range sits exactly on the limit.
    let mut top = SbcConfig::default();
    top.channel_mode = ChannelMode::Stereo;
    top.bitpool = 250;
    assert_eq!(top.frame_size(), 512);
}

#[test]
fn test_frame_size_within_limit_for_valid_geometries() {
    let freqs = [
        SamplingFrequency::Freq16000,
        SamplingFrequency::Freq32000,
        SamplingFrequency::Freq44100,
        SamplingFrequency::Freq48000,
    ];
    let modes = [
        ChannelMode::Mono,
        ChannelMode::DualChannel,
        ChannelMode::Stereo,
        ChannelMode::JointStereo,
    ];
    let blocks = [
        BlockLength::Blocks4,
        BlockLength::Blocks8,
        BlockLength::Blocks12,
        BlockLength::Blocks16,
    ];
    let subbands = [Subbands::Sub4, Subbands::Sub8];
    let mut over = 0;
    for f in freqs {
        for m in modes {
            for b in blocks {
                for s in subbands {
                    for bitpool in 2..=250u8 {
                        let config =
                            SbcConfig::new(f, m, b, s, AllocationMethod::Loudness, bitpool);
                        if !config.is_valid() {
                            continue;
                        }
                        let size = config.frame_size();
                        assert!(size > 0);
                        assert_eq!(size, config.frame_size());
                        let oversized = b == BlockLength::Blocks16
                            && s == Subbands::Sub8
                            && ((m == ChannelMode::DualChannel && bitpool >= 126)
                                || (m == ChannelMode::JointStereo && bitpool >= 250));
                        assert_eq!(size > MAX_SBC_FRAME_SIZE, oversized);
                        if oversized {
                            over += 1;
                        }
                    }
                }
            }
        }
    }
    // Dual channel at bitpool 126, 127, 128 and joint stereo at 250, at
    // each of the four frequencies.
    assert_eq!(over, 16);
}

#[test]
fn test_oversized_geometries() {
    let mut dual = SbcConfig::default();
    dual.channel_mode = ChannelMode::DualChannel;
    dual.bitpool = 128;
    assert!(dual.is_valid());
    assert_eq!(dual.frame_size(), 524);

    let mut joint = SbcConfig::default();
    joint.bitpool = 250;
    assert!(joint.is_valid());
    assert_eq!(joint.frame_size(), 514);
}
