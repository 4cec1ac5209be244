use a2dp_source::sbc_encoder::{
    AllocationMethod, BlockLength, ChannelMode, SamplingFrequency, SbcConfig, SbcEncoder,
    SbcError, Subbands, MAX_SBC_FRAME_SIZE,
};

/// Test that encoder can be created with default config
#[test]
fn test_encoder_creation() {
    let config = SbcConfig::default();
    let encoder = SbcEncoder::new(config);
    assert_eq!(encoder.samples_per_frame(), 128);
}

/// Test that frame size calculation is correct
#[test]
fn test_frame_size_calculation() {
    let config = SbcConfig {
        sampling_frequency: SamplingFrequency::Freq44100,
        channel_mode: ChannelMode::JointStereo,
        block_length: BlockLength::Blocks16,
        subbands: Subbands::Sub8,
        allocation_method: AllocationMethod::Loudness,
        bitpool: 53,
    };
    let size = config.frame_size();
    assert!(size > 0 && size <= MAX_SBC_FRAME_SIZE);
}

/// Test encoding with silence produces valid output
#[test]
fn test_encode_silence() {
    let config = SbcConfig::default();
    let mut encoder = SbcEncoder::new(config);

    let samples_needed = encoder.samples_per_frame() * config.channels() as usize;
    let pcm: std::vec::Vec<i16> = std::vec![0i16; samples_needed];
    let mut output = [0u8; MAX_SBC_FRAME_SIZE];

    let result = encoder.encode_frame(&pcm, &mut output);
    assert!(result.is_ok());
    let size = result.unwrap();
    assert!(size > 0);

    // Check SBC sync word
    assert_eq!(output[0], 0x9C, "SBC sync word should be 0x9C");
}

/// Test encoding with sine wave
#[test]
fn test_encode_sine_wave() {
    let config = SbcConfig::default();
    let mut encoder = SbcEncoder::new(config);

    let samples_needed = encoder.samples_per_frame() * config.channels() as usize;

    // Generate 1kHz sine wave at 44.1kHz
    let pcm: std::vec::Vec<i16> = (0..samples_needed)
        .map(|i| {
            let t = (i / 2) as f32 / 44100.0;
            let sample = (2.0 * std::f32::consts::PI * 1000.0 * t).sin();
            (sample * 16000.0) as i16
        })
        .collect();

    let mut output = [0u8; MAX_SBC_FRAME_SIZE];
    let result = encoder.encode_frame(&pcm, &mut output);
    assert!(result.is_ok());
}

/// Test that input too small returns error
#[test]
fn test_encode_input_too_small() {
    let config = SbcConfig::default();
    let mut encoder = SbcEncoder::new(config);

    let pcm = [0i16; 10]; // Way too small
    let mut output = [0u8; MAX_SBC_FRAME_SIZE];

    let result = encoder.encode_frame(&pcm, &mut output);
    assert_eq!(result, Err(SbcError::InputTooSmall));
}

/// Test that output too small returns error
#[test]
fn test_encode_output_too_small() {
    let config = SbcConfig::default();
    let mut encoder = SbcEncoder::new(config);

    let samples_needed = encoder.samples_per_frame() * config.channels() as usize;
    let pcm: std::vec::Vec<i16> = std::vec![0i16; samples_needed];
    let mut output = [0u8; 4]; // Way too small

    let result = encoder.encode_frame(&pcm, &mut output);
    assert_eq!(result, Err(SbcError::OutputTooSmall));
}

/// Test multiple consecutive frames
#[test]
fn test_encode_multiple_frames() {
    let config = SbcConfig::default();
    let mut encoder = SbcEncoder::new(config);

    let samples_needed = encoder.samples_per_frame() * config.channels() as usize;
    let pcm: std::vec::Vec<i16> = std::vec![0i16; samples_needed];
    let mut output = [0u8; MAX_SBC_FRAME_SIZE];

    // Encode 10 consecutive frames
    for _ in 0..10 {
        let result = encoder.encode_frame(&pcm, &mut output);
        assert!(result.is_ok());
    }
}

/// Test encoder reset clears state
#[test]
fn test_encoder_reset() {
    let config = SbcConfig::default();
    let mut encoder = SbcEncoder::new(config);

    let samples_needed = encoder.samples_per_frame() * config.channels() as usize;
    let pcm: std::vec::Vec<i16> = std::vec![1000i16; samples_needed];
    let mut output1 = [0u8; MAX_SBC_FRAME_SIZE];
    let mut output2 = [0u8; MAX_SBC_FRAME_SIZE];

    // Encode a frame
    let _ = encoder.encode_frame(&pcm, &mut output1);

    // Reset and encode again with same input
    encoder.reset();
    let _ = encoder.encode_frame(&pcm, &mut output2);

    // After reset, first frame should be the same
    // (filter state cleared)
}

fn test_tone(samples: usize) -> Vec<i16> {
    (0..samples)
        .map(|i| (((i * 37) % 201) as i16 - 100) * 50)
        .collect()
}

#[test]
fn test_encoder_accessors() {
    let config = SbcConfig::default();
    let encoder = SbcEncoder::new(config);
    assert_eq!(*encoder.config(), config);
    assert_eq!(encoder.frame_size(), 120);
    assert_eq!(encoder.samples_per_frame(), 128);
}

#[test]
fn test_encode_silence_exact_frame() {
    let config = SbcConfig::default();
    let mut encoder = SbcEncoder::new(config);
    let pcm = vec![0i16; 256];
    let mut output = [0x77u8; MAX_SBC_FRAME_SIZE];
    // Nothing is allocated to silence: the header, the join flags and the
    // scale factors are all of the frame.
    assert_eq!(encoder.encode_frame(&pcm, &mut output), Ok(13));
    assert_eq!(
        output[..13],
        [0x9C, 0xBF, 0x35, 0x9C, 0, 0, 0, 0, 0, 0, 0, 0, 0]
    );
    assert!(output[13..].iter().all(|&b| b == 0x77));
}

#[test]
fn test_encode_ten_silence_frames_stay_within_limit() {
    let config = SbcConfig::default();
    let mut encoder = SbcEncoder::new(config);
    let pcm = vec![0i16; 256];
    let mut output = [0u8; MAX_SBC_FRAME_SIZE];
    for _ in 0..10 {
        let size = encoder.encode_frame(&pcm, &mut output).unwrap();
        assert!(size <= MAX_SBC_FRAME_SIZE);
        assert_eq!(size, 13);
        assert_eq!(output[0], 0x9C);
    }
}

#[test]
fn test_encode_short_input_leaves_the_encoder_alone() {
    let config = SbcConfig::default();
    let pcm = test_tone(256);
    let mut reference = SbcEncoder::new(config);
    let mut expected = [0u8; MAX_SBC_FRAME_SIZE];
    let expected_size = reference.encode_frame(&pcm, &mut expected).unwrap();

    let mut encoder = SbcEncoder::new(config);
    let mut output = [0x55u8; MAX_SBC_FRAME_SIZE];
    assert_eq!(
        encoder.encode_frame(&pcm[..255], &mut output),
        Err(SbcError::InputTooSmall)
    );
    assert!(output.iter().all(|&b| b == 0x55));
    // The failed call did not advance the filter history.
    let size = encoder.encode_frame(&pcm, &mut output).unwrap();
    assert_eq!(size, expected_size);
    assert_eq!(output[..size], expected[..size]);
}

#[test]
fn test_encode_short_output_leaves_everything_alone() {
    let config = SbcConfig::default();
    let pcm = test_tone(256);
    let mut reference = SbcEncoder::new(config);
    let mut expected = [0u8; MAX_SBC_FRAME_SIZE];
    let expected_size = reference.encode_frame(&pcm, &mut expected).unwrap();

    let mut encoder = SbcEncoder::new(config);
    let mut small = [0x55u8; 119];
    assert_eq!(
        encoder.encode_frame(&pcm, &mut small),
        Err(SbcError::OutputTooSmall)
    );
    assert!(small.iter().all(|&b| b == 0x55));
    let mut output = [0u8; MAX_SBC_FRAME_SIZE];
    let size = encoder.encode_frame(&pcm, &mut output).unwrap();
    assert_eq!(size, expected_size);
    assert_eq!(output[..size], expected[..size]);
}

#[test]
fn test_encode_input_is_checked_before_output() {
    let mut encoder = SbcEncoder::new(SbcConfig::default());
    let mut output = [0u8; 4];
    assert_eq!(
        encoder.encode_frame(&[0i16; 10], &mut output),
        Err(SbcError::InputTooSmall)
    );
}

#[test]
fn test_reset_encodes_like_a_new_encoder() {
    let config = SbcConfig::default();
    let first = test_tone(256);
    let second: Vec<i16> = test_tone(256).iter().map(|s| s / 3).collect();

    let mut used = SbcEncoder::new(config);
    let mut scratch = [0u8; MAX_SBC_FRAME_SIZE];
    used.encode_frame(&first, &mut scratch).unwrap();
    used.encode_frame(&first, &mut scratch).unwrap();
    used.reset();
    let mut after_reset = [0u8; MAX_SBC_FRAME_SIZE];
    let size_reset = used.encode_frame(&second, &mut after_reset).unwrap();

    let mut fresh = SbcEncoder::new(config);
    let mut from_fresh = [0u8; MAX_SBC_FRAME_SIZE];
    let size_fresh = fresh.encode_frame(&second, &mut from_fresh).unwrap();

    assert_eq!(size_reset, size_fresh);
    assert_eq!(after_reset[..], from_fresh[..]);
}

#[test]
fn test_history_carries_across_frames() {
    let config = SbcConfig::default();
    let pcm = test_tone(256);
    let mut encoder = SbcEncoder::new(config);
    let mut first = [0u8; MAX_SBC_FRAME_SIZE];
    let mut second = [0u8; MAX_SBC_FRAME_SIZE];
    let a = encoder.encode_frame(&pcm, &mut first).unwrap();
    let b = encoder.encode_frame(&pcm, &mut second).unwrap();
    // The second frame sees the first in its filter history.
    assert!(a != b || first[..a] != second[..b]);
}

#[test]
fn test_encode_header_of_every_mode() {
    let modes = [
        (ChannelMode::Mono, 0u8),
        (ChannelMode::DualChannel, 1),
        (ChannelMode::Stereo, 2),
        (ChannelMode::JointStereo, 3),
    ];
    for (mode, bits) in modes {
        let config = SbcConfig::new(
            SamplingFrequency::Freq48000,
            mode,
            BlockLength::Blocks8,
            Subbands::Sub4,
            AllocationMethod::Snr,
            20,
        );
        let mut encoder = SbcEncoder::new(config);
        let pcm = test_tone(64);
        let mut output = [0u8; MAX_SBC_FRAME_SIZE];
        let size = encoder.encode_frame(&pcm, &mut output).unwrap();
        assert!(size >= 4 && size <= config.frame_size());
        assert_eq!(output[0], 0x9C);
        assert_eq!(output[1], (3 << 6) | (1 << 4) | (bits << 2));
        assert_eq!(output[2], 20);
    }
}

#[test]
fn test_encode_reports_a_frame_that_cannot_be_packed() {
    // The same tone on both channels: seven subbands are joined, and the
    // shared bit widths make the frame one byte longer than the nominal
    // 120. A buffer of the nominal size cannot take it.
    let config = SbcConfig::default();
    let tone = test_tone(128);
    let pcm: Vec<i16> = tone.iter().flat_map(|&s| [s, s]).collect();

    let mut encoder = SbcEncoder::new(config);
    let mut exact = [0x11u8; 120];
    assert_eq!(
        encoder.encode_frame(&pcm, &mut exact),
        Err(SbcError::EncoderError)
    );
    assert!(exact.iter().all(|&b| b == 0x11));

    // The encoder is as it was: with room, it encodes as a new one does.
    let mut output = [0u8; MAX_SBC_FRAME_SIZE];
    assert_eq!(encoder.encode_frame(&pcm, &mut output), Ok(121));
    let mut fresh = SbcEncoder::new(config);
    let mut expected = [0u8; MAX_SBC_FRAME_SIZE];
    assert_eq!(fresh.encode_frame(&pcm, &mut expected), Ok(121));
    assert_eq!(output[..], expected[..]);
    // All but the top subband are joined.
    assert_eq!(output[4], 0b1111_1110);
}

#[test]
fn test_silent_frame_length_of_every_geometry() {
    let cases = [
        (ChannelMode::Mono, Subbands::Sub4, 6usize),
        (ChannelMode::Mono, Subbands::Sub8, 8),
        (ChannelMode::DualChannel, Subbands::Sub4, 8),
        (ChannelMode::DualChannel, Subbands::Sub8, 12),
        (ChannelMode::Stereo, Subbands::Sub4, 8),
        (ChannelMode::Stereo, Subbands::Sub8, 12),
        (ChannelMode::JointStereo, Subbands::Sub4, 9),
        (ChannelMode::JointStereo, Subbands::Sub8, 13),
    ];
    for (mode, subbands, expected) in cases {
        for method in [AllocationMethod::Snr, AllocationMethod::Loudness] {
            for blocks in [BlockLength::Blocks4, BlockLength::Blocks16] {
                let config = SbcConfig {
                    sampling_frequency: SamplingFrequency::Freq48000,
                    channel_mode: mode,
                    block_length: blocks,
                    subbands,
                    allocation_method: method,
                    bitpool: 20,
                };
                let mut encoder = SbcEncoder::new(config);
                let pcm = vec![0i16; 256];
                let mut output = [0xEEu8; MAX_SBC_FRAME_SIZE];
                for _ in 0..3 {
                    assert_eq!(encoder.encode_frame(&pcm, &mut output), Ok(expected));
                    assert_eq!(output[0], 0x9C);
                    assert_eq!(output[2], 20);
                    assert!(output[4..expected].iter().all(|&b| b == 0));
                    assert!(output[expected..].iter().all(|&b| b == 0xEE));
                }
            }
        }
    }
}

#[test]
fn test_snr_frames_fit_the_nominal_size() {
    let mut seed: u32 = 0x1234_5678;
    let mut pcm = vec![0i16; 256];
    for mode in [ChannelMode::Mono, ChannelMode::DualChannel, ChannelMode::Stereo] {
        for subbands in [Subbands::Sub4, Subbands::Sub8] {
            for bitpool in [2u8, 19, 53, 64] {
                let config = SbcConfig {
                    sampling_frequency: SamplingFrequency::Freq44100,
                    channel_mode: mode,
                    block_length: BlockLength::Blocks16,
                    subbands,
                    allocation_method: AllocationMethod::Snr,
                    bitpool,
                };
                assert!(config.is_valid());
                let nominal = config.frame_size();
                assert!(nominal <= MAX_SBC_FRAME_SIZE);
                let mut encoder = SbcEncoder::new(config);
                let mut output = vec![0u8; nominal];
                for _ in 0..4 {
                    for sample in pcm.iter_mut() {
                        seed = seed.wrapping_mul(1_664_525).wrapping_add(1_013_904_223);
                        *sample = (seed >> 16) as i16;
                    }
                    let size = encoder.encode_frame(&pcm, &mut output).unwrap();
                    assert!(size <= nominal);
                    assert_eq!(output[0], 0x9C);
                    assert_eq!(output[2], bitpool);
                }
            }
        }
    }
}

#[test]
fn test_identical_channels_through_the_encoder_set_join_flags() {
    let config = SbcConfig::default();
    let mut encoder = SbcEncoder::new(config);
    let mut pcm = vec![0i16; 256];
    for n in 0..128 {
        let v = if (n / 16) % 2 == 0 { 9000 } else { -9000 };
        pcm[2 * n] = v;
        pcm[2 * n + 1] = v;
    }
    let mut output = [0u8; MAX_SBC_FRAME_SIZE];
    let size = encoder.encode_frame(&pcm, &mut output).unwrap();
    assert!(size > 13);
    // The join flags follow the header: one bit per subband, the top
    // subband of eight never set.
    assert_ne!(output[4], 0);
    assert_eq!(output[4] & 1, 0);
}
