use a2dp_source::sbc_encoder::quantizer::Quantizer;
use a2dp_source::sbc_encoder::{ChannelMode, SbcConfig, Subbands};

const MAX_SUBBANDS: usize = 8;
const MAX_BLOCKS: usize = 16;
const MAX_CHANNELS: usize = 2;

#[test]
fn test_scale_factor_zero() {
    let q = Quantizer::new();
    assert_eq!(q.calc_single_scale_factor(0), 0);
}

#[test]
fn test_scale_factor_small() {
    let q = Quantizer::new();
    assert_eq!(q.calc_single_scale_factor(1), 0);
    assert_eq!(q.calc_single_scale_factor(2), 1);
    assert_eq!(q.calc_single_scale_factor(3), 1);
    assert_eq!(q.calc_single_scale_factor(4), 2);
}

#[test]
fn test_scale_factor_large() {
    let q = Quantizer::new();
    // Large values should clamp to 15
    assert_eq!(q.calc_single_scale_factor(100000), 15);
}

#[test]
fn test_quantize_sample_mid() {
    let q = Quantizer::new();
    // Zero sample with 8 bits should give middle value
    let result = q.quantize_sample(0, 8, 1024);
    // Should be around 127-128 (middle of 0-255 range)
    assert!(result >= 120 && result <= 135);
}

#[test]
fn test_joint_stereo_identical_channels() {
    let q = Quantizer::new();
    let config = SbcConfig {
        channel_mode: ChannelMode::JointStereo,
        ..Default::default()
    };

    // Create identical L and R channels
    let mut subbands = [[[0i32; MAX_SUBBANDS]; MAX_BLOCKS]; MAX_CHANNELS];
    for blk in 0..16 {
        for sb in 0..8 {
            subbands[0][blk][sb] = 1000;
            subbands[1][blk][sb] = 1000;
        }
    }

    let scale_factors = [[4u8; MAX_SUBBANDS]; MAX_CHANNELS];
    let (result, join_flags) = q.joint_stereo_process(subbands, &scale_factors, &config);

    // When L = R, M = L and S = 0
    // High correlation should trigger joint stereo
    assert!(join_flags != 0, "Should use joint stereo for identical channels");

    // Verify M = L, S = 0 for joined subbands
    for sb in 0..7 {
        // Last subband not joined in 8-subband mode
        if (join_flags >> (7 - sb)) & 1 == 1 {
            for blk in 0..16 {
                assert_eq!(result[1][blk][sb], 0, "Side should be zero");
            }
        }
    }
}

#[test]
fn test_scale_factor_thresholds() {
    let q = Quantizer::new();
    for s in 1..16u32 {
        let low = 1i32 << s;
        // 2^s needs scale factor s, one below it s - 1.
        assert_eq!(q.calc_single_scale_factor(low) as u32, s.min(15));
        assert_eq!(q.calc_single_scale_factor(low - 1) as u32, s - 1);
    }
    assert_eq!(q.calc_single_scale_factor(65535), 15);
    assert_eq!(q.calc_single_scale_factor(65536), 15);
    assert_eq!(q.calc_single_scale_factor(i32::MAX), 15);
    // A negative argument reads as a large magnitude.
    assert_eq!(q.calc_single_scale_factor(-1), 15);
}

#[test]
fn test_calc_scale_factors_takes_the_peak_magnitude() {
    let q = Quantizer::new();
    let config = SbcConfig::default();
    let mut subbands = [[[0i32; 8]; 16]; 2];
    subbands[0][3][2] = -300;
    subbands[0][9][2] = 17;
    subbands[1][15][7] = 65536;
    subbands[1][0][0] = i32::MIN;
    subbands[0][5][5] = 1;
    let sf = q.calc_scale_factors(&subbands, &config);
    let mut expected = [[0u8; 8]; 2];
    expected[0][2] = 8;
    expected[1][7] = 15;
    expected[1][0] = 15;
    assert_eq!(sf, expected);
}

#[test]
fn test_calc_scale_factors_ignores_cells_outside_the_geometry() {
    let q = Quantizer::new();
    let config = SbcConfig {
        channel_mode: ChannelMode::Mono,
        subbands: Subbands::Sub4,
        ..Default::default()
    };
    let subbands = [[[1000i32; 8]; 16]; 2];
    let sf = q.calc_scale_factors(&subbands, &config);
    assert_eq!(sf, [[9, 9, 9, 9, 0, 0, 0, 0], [0; 8]]);
}

#[test]
fn test_quantize_sample_exact_values() {
    let q = Quantizer::new();
    assert_eq!(q.quantize_sample(0, 8, 1024), 127);
    assert_eq!(q.quantize_sample(1000, 4, 1024), 14);
    assert_eq!(q.quantize_sample(-1000, 4, 1024), 0);
    // The quotient rounds toward zero: -98304 / 7 is -14043.
    assert_eq!(q.quantize_sample(-3, 16, 7), 18724);
    assert_eq!(q.quantize_sample(511, 2, 1024), 2);
    assert_eq!(q.quantize_sample(123, 16, 65536), 32828);
    assert_eq!(q.quantize_sample(-32768, 16, 65536), 16383);
    assert_eq!(q.quantize_sample(1, 1, 2), 0);
}

#[test]
fn test_quantize_sample_clamps() {
    let q = Quantizer::new();
    assert_eq!(q.quantize_sample(2000, 4, 1024), 15);
    assert_eq!(q.quantize_sample(-5000, 4, 1024), 0);
    assert_eq!(q.quantize_sample(i32::MAX, 16, 1), 65535);
    assert_eq!(q.quantize_sample(i32::MIN, 16, 1), 0);
}

#[test]
fn test_quantize_skips_cells_without_bits() {
    let q = Quantizer::new();
    let config = SbcConfig::default();
    let subbands = [[[1000i32; 8]; 16]; 2];
    let mut bits = [[0u8; 8]; 2];
    bits[0][1] = 4;
    bits[1][6] = 8;
    // Scale factor 9: level 1024.
    let scale_factors = [[9u8; 8]; 2];
    let codes = q.quantize(&subbands, &bits, &scale_factors, &config);
    for ch in 0..2 {
        for blk in 0..16 {
            for sb in 0..8 {
                let expected = if ch == 0 && sb == 1 {
                    14
                } else if ch == 1 && sb == 6 {
                    q.quantize_sample(1000, 8, 1024)
                } else {
                    0
                };
                assert_eq!(codes[ch][blk][sb], expected);
            }
        }
    }
    assert_eq!(q.quantize_sample(1000, 8, 1024), 252);
}

#[test]
fn test_joint_stereo_off_in_other_modes() {
    let q = Quantizer::new();
    let subbands = [[[1000i32; 8]; 16]; 2];
    for mode in [ChannelMode::Mono, ChannelMode::DualChannel, ChannelMode::Stereo] {
        let config = SbcConfig {
            channel_mode: mode,
            ..Default::default()
        };
        let (result, flags) = q.joint_stereo_process(subbands, &[[4u8; 8]; 2], &config);
        assert_eq!(flags, 0);
        assert_eq!(result, subbands);
    }
}

#[test]
fn test_joint_stereo_identical_channels_exact() {
    let q = Quantizer::new();
    let config = SbcConfig::default();
    let mut subbands = [[[0i32; 8]; 16]; 2];
    for blk in 0..16 {
        for sb in 0..8 {
            subbands[0][blk][sb] = 1000 + sb as i32;
            subbands[1][blk][sb] = 1000 + sb as i32;
        }
    }
    // Subband 2 is silent, subband 3 has scale factors too far apart.
    for blk in 0..16 {
        subbands[0][blk][2] = 0;
        subbands[1][blk][2] = 0;
    }
    let mut scale_factors = [[9u8; 8]; 2];
    scale_factors[0][3] = 14;
    let (result, flags) = q.joint_stereo_process(subbands, &scale_factors, &config);
    // Subbands 0, 1, 4, 5, 6 joined; 7 is never joined with 8 subbands.
    assert_eq!(flags, 0b1100_1110);
    for blk in 0..16 {
        for sb in [0usize, 1, 4, 5, 6] {
            assert_eq!(result[0][blk][sb], 1000 + sb as i32);
            assert_eq!(result[1][blk][sb], 0);
        }
        for sb in [2usize, 3, 7] {
            assert_eq!(result[0][blk][sb], subbands[0][blk][sb]);
            assert_eq!(result[1][blk][sb], subbands[1][blk][sb]);
        }
    }
}

#[test]
fn test_joint_stereo_mid_side_round_down() {
    let q = Quantizer::new();
    let config = SbcConfig {
        subbands: Subbands::Sub4,
        ..Default::default()
    };
    let mut subbands = [[[0i32; 8]; 16]; 2];
    for blk in 0..16 {
        subbands[0][blk][3] = 7;
        subbands[1][blk][3] = 10;
    }
    let (result, flags) = q.joint_stereo_process(subbands, &[[3u8; 8]; 2], &config);
    // With four subbands the top one may be joined: bit 0.
    assert_eq!(flags, 0b0000_0001);
    for blk in 0..16 {
        assert_eq!(result[0][blk][3], 8);
        assert_eq!(result[1][blk][3], -2);
    }
}

#[test]
fn test_should_use_joint_decisions() {
    let q = Quantizer::new();
    let mut subbands = [[[0i32; 8]; 16]; 2];
    for blk in 0..16 {
        subbands[0][blk][0] = 500;
        subbands[1][blk][0] = 500;
        // Opposite signs correlate as well as equal ones do: the proxy is squared.
        subbands[0][blk][1] = 500;
        subbands[1][blk][1] = -500;
        // Orthogonal over the blocks.
        subbands[0][blk][2] = if blk % 2 == 0 { 500 } else { 0 };
        subbands[1][blk][2] = if blk % 2 == 0 { 0 } else { 500 };
        subbands[0][blk][3] = 500;
    }
    assert!(q.should_use_joint(&subbands, 0, 16, 8, 8));
    assert!(q.should_use_joint(&subbands, 0, 16, 8, 12));
    assert!(!q.should_use_joint(&subbands, 0, 16, 8, 13));
    assert!(q.should_use_joint(&subbands, 1, 16, 8, 8));
    assert!(!q.should_use_joint(&subbands, 2, 16, 8, 8));
    assert!(!q.should_use_joint(&subbands, 3, 16, 8, 8));
    assert!(!q.should_use_joint(&subbands, 0, 0, 8, 8));
}

#[test]
fn test_should_use_joint_with_the_largest_samples() {
    let q = Quantizer::new();
    let loud = [[[i32::MIN; 8]; 16]; 2];
    assert!(q.should_use_joint(&loud, 0, 16, 15, 15));
    let mut mixed = [[[i32::MAX; 8]; 16]; 2];
    for blk in 0..16 {
        mixed[1][blk][0] = if blk % 2 == 0 { i32::MAX } else { -i32::MAX };
    }
    assert!(!q.should_use_joint(&mixed, 0, 16, 15, 15));
}

#[test]
fn test_joint_stereo_silent_identical_channels_set_no_flag() {
    let q = Quantizer::new();
    let config = SbcConfig::default();
    let subbands = [[[0i32; 8]; 16]; 2];
    let (result, flags) = q.joint_stereo_process(subbands, &[[0u8; 8]; 2], &config);
    assert_eq!(flags, 0);
    assert_eq!(result, subbands);
}

#[test]
fn test_joint_stereo_top_subband_of_eight_is_never_joined() {
    let q = Quantizer::new();
    let config = SbcConfig::default();
    let mut subbands = [[[0i32; 8]; 16]; 2];
    for blk in 0..16 {
        subbands[0][blk][7] = 500;
        subbands[1][blk][7] = 500;
    }
    let mut scale_factors = [[0u8; 8]; 2];
    scale_factors[0][7] = 8;
    scale_factors[1][7] = 8;
    let (result, flags) = q.joint_stereo_process(subbands, &scale_factors, &config);
    assert_eq!(flags, 0);
    assert_eq!(result, subbands);
}

#[test]
fn test_joint_stereo_identical_channels_with_their_own_scale_factors() {
    let q = Quantizer::new();
    for (count, top_bit) in [(Subbands::Sub4, 0b0000_1000u8), (Subbands::Sub8, 0b1000_0000u8)] {
        let config = SbcConfig {
            subbands: count,
            ..Default::default()
        };
        let mut subbands = [[[0i32; 8]; 16]; 2];
        for blk in 0..16 {
            let v = (blk as i32 - 8) * 37;
            subbands[0][blk][0] = v;
            subbands[1][blk][0] = v;
        }
        let scale_factors = q.calc_scale_factors(&subbands, &config);
        assert_eq!(scale_factors[0][0], 8);
        assert_eq!(scale_factors[1][0], 8);
        let (result, flags) = q.joint_stereo_process(subbands, &scale_factors, &config);
        // Only subband 0 sounds: its bit is the highest of the field.
        assert_eq!(flags, top_bit);
        for blk in 0..16 {
            assert_eq!(result[0][blk][0], subbands[0][blk][0]);
            assert_eq!(result[1][blk][0], 0);
        }
    }
}
