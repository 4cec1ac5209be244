use a2dp_source::sbc_encoder::bitalloc::BitAllocator;
use a2dp_source::sbc_encoder::{
    AllocationMethod, BlockLength, ChannelMode, SamplingFrequency, SbcConfig, Subbands,
};

const MAX_SUBBANDS: usize = 8;
const MAX_CHANNELS: usize = 2;

fn total(bits: &[[u8; 8]; 2]) -> u32 {
    bits.iter().flat_map(|ch| ch.iter()).map(|&b| b as u32).sum()
}

#[test]
fn test_bit_allocator_creation() {
    let _alloc = BitAllocator::new();
}

#[test]
fn test_allocate_snr_basic() {
    let alloc = BitAllocator::new();
    let config = SbcConfig {
        allocation_method: AllocationMethod::Snr,
        bitpool: 50,
        ..Default::default()
    };

    // All scale factors equal
    let scale_factors = [[5u8; MAX_SUBBANDS]; MAX_CHANNELS];

    let bits = alloc.allocate(&scale_factors, &config, 0);

    // Should have non-zero bits allocated
    let total_bits: u32 = bits
        .iter()
        .flat_map(|ch| ch.iter())
        .map(|&b| b as u32)
        .sum();
    assert!(total_bits > 0, "Should allocate some bits");
}

#[test]
fn test_allocate_loudness_basic() {
    let alloc = BitAllocator::new();
    let config = SbcConfig {
        allocation_method: AllocationMethod::Loudness,
        bitpool: 50,
        ..Default::default()
    };

    let scale_factors = [[5u8; MAX_SUBBANDS]; MAX_CHANNELS];

    let bits = alloc.allocate(&scale_factors, &config, 0);

    // Should have non-zero bits allocated
    let total_bits: u32 = bits
        .iter()
        .flat_map(|ch| ch.iter())
        .map(|&b| b as u32)
        .sum();
    assert!(total_bits > 0, "Should allocate some bits");
}

#[test]
fn test_allocate_silent_subbands() {
    let alloc = BitAllocator::new();
    let config = SbcConfig {
        allocation_method: AllocationMethod::Loudness,
        bitpool: 50,
        ..Default::default()
    };

    // All zeros - should get minimal or no allocation
    let scale_factors = [[0u8; MAX_SUBBANDS]; MAX_CHANNELS];

    let bits = alloc.allocate(&scale_factors, &config, 0);

    // Silent subbands should get low priority
    // Total bits should be low or zero
    let total_bits: u32 = bits
        .iter()
        .flat_map(|ch| ch.iter())
        .map(|&b| b as u32)
        .sum();
    assert!(total_bits < 100, "Silent should get minimal bits");
}

#[test]
fn test_allocate_respects_bitpool() {
    let alloc = BitAllocator::new();

    for bitpool in [20, 50, 100, 200] {
        let config = SbcConfig {
            bitpool,
            ..Default::default()
        };

        let scale_factors = [[10u8; MAX_SUBBANDS]; MAX_CHANNELS];
        let bits = alloc.allocate(&scale_factors, &config, 0);

        // Total allocated bits should not exceed bitpool
        let total_bits: u32 = bits
            .iter()
            .flat_map(|ch| ch.iter())
            .map(|&b| b as u32)
            .sum();

        assert!(
            total_bits <= bitpool as u32 * 2,
            "Should not exceed bitpool"
        );
    }
}

#[test]
fn test_bits_per_subband_max_16() {
    let alloc = BitAllocator::new();
    let config = SbcConfig {
        bitpool: 200, // High bitpool
        ..Default::default()
    };

    let scale_factors = [[15u8; MAX_SUBBANDS]; MAX_CHANNELS];
    let bits = alloc.allocate(&scale_factors, &config, 0);

    // No subband should have more than 16 bits
    for ch in &bits {
        for &b in ch {
            assert!(b <= 16, "Max 16 bits per subband");
        }
    }
}

#[test]
fn test_allocate_exact_loudness() {
    let alloc = BitAllocator::new();
    let config = SbcConfig {
        bitpool: 50,
        ..Default::default()
    };
    let bits = alloc.allocate(&[[5u8; 8]; 2], &config, 0);
    assert_eq!(bits, [[6, 4, 4, 4, 4, 4, 2, 0], [5, 3, 3, 3, 3, 3, 2, 0]]);
    assert_eq!(total(&bits), 50);
}

#[test]
fn test_allocate_exact_snr() {
    let alloc = BitAllocator::new();
    let config = SbcConfig {
        allocation_method: AllocationMethod::Snr,
        bitpool: 50,
        ..Default::default()
    };
    let bits = alloc.allocate(&[[5u8; 8]; 2], &config, 0);
    assert_eq!(bits, [[4, 4, 3, 3, 3, 3, 3, 3], [3, 3, 3, 3, 3, 3, 3, 3]]);
    assert_eq!(total(&bits), 50);
    assert_eq!(bits, alloc.allocate_snr(&[[5u8; 8]; 2], &config, 0));
}

#[test]
fn test_allocate_exact_mono_four_subbands() {
    let alloc = BitAllocator::new();
    let config = SbcConfig::new(
        SamplingFrequency::Freq16000,
        ChannelMode::Mono,
        BlockLength::Blocks4,
        Subbands::Sub4,
        AllocationMethod::Snr,
        24,
    );
    // Scale factors outside the geometry are not looked at.
    let scale_factors = [[3, 9, 1, 12, 7, 7, 7, 7], [9u8; 8]];
    let bits = alloc.allocate(&scale_factors, &config, 0);
    assert_eq!(bits, [[3, 9, 0, 12, 0, 0, 0, 0], [0; 8]]);
}

#[test]
fn test_allocate_high_bitpool_exact() {
    let alloc = BitAllocator::new();
    let config = SbcConfig {
        bitpool: 200,
        ..Default::default()
    };
    let bits = alloc.allocate(&[[10u8; 8]; 2], &config, 0);
    assert_eq!(
        bits,
        [[15, 13, 13, 13, 13, 13, 12, 11], [15, 13, 12, 12, 12, 12, 11, 10]]
    );
    assert_eq!(total(&bits), 200);
}

#[test]
fn test_allocate_silence_gets_nothing() {
    let alloc = BitAllocator::new();
    for method in [AllocationMethod::Snr, AllocationMethod::Loudness] {
        let config = SbcConfig {
            allocation_method: method,
            ..Default::default()
        };
        assert_eq!(alloc.allocate(&[[0u8; 8]; 2], &config, 0), [[0u8; 8]; 2]);
    }
}

#[test]
fn test_allocate_total_within_bitpool_for_every_bitpool() {
    let alloc = BitAllocator::new();
    let scale_factors = [[12, 3, 0, 7, 15, 1, 9, 4], [2, 14, 6, 0, 8, 11, 5, 13]];
    for mode in [ChannelMode::Mono, ChannelMode::DualChannel, ChannelMode::Stereo] {
        for bitpool in 2..=250u8 {
            let config = SbcConfig {
                channel_mode: mode,
                allocation_method: AllocationMethod::Snr,
                bitpool,
                ..Default::default()
            };
            let bits = alloc.allocate(&scale_factors, &config, 0xFF);
            assert!(total(&bits) <= bitpool as u32);
            for ch in &bits {
                for &b in ch {
                    assert!(b <= 16);
                }
            }
        }
    }
}

#[test]
fn test_allocate_loudness_need_above_fifteen_passes_sixteen_bits() {
    // Scale factor 15 in subband 0 at 44.1 kHz has offset -2: a need of 17,
    // which the slices carry to 18 bits where the budget allows.
    let alloc = BitAllocator::new();
    let config = SbcConfig {
        channel_mode: ChannelMode::Mono,
        ..Default::default()
    };
    let mut scale_factors = [[0u8; 8]; 2];
    scale_factors[0][0] = 15;
    let bits = alloc.allocate(&scale_factors, &config, 0);
    assert_eq!(bits, [[18, 0, 0, 0, 0, 0, 0, 0], [0; 8]]);
    assert_eq!(bits, alloc.allocate_loudness(&scale_factors, &config, 0));
}

#[test]
fn test_allocate_joined_subband_shares_the_larger_width() {
    let alloc = BitAllocator::new();
    let config = SbcConfig {
        allocation_method: AllocationMethod::Snr,
        bitpool: 4,
        ..Default::default()
    };
    let mut scale_factors = [[0u8; 8]; 2];
    scale_factors[0][0] = 5;
    scale_factors[1][0] = 1;
    let apart = alloc.allocate(&scale_factors, &config, 0);
    assert_eq!(apart, [[4, 0, 0, 0, 0, 0, 0, 0], [0; 8]]);
    // Subband 0 joined: both channels take 4 bits, twice the bitpool.
    let joined = alloc.allocate(&scale_factors, &config, 0x80);
    assert_eq!(joined, [[4, 0, 0, 0, 0, 0, 0, 0], [4, 0, 0, 0, 0, 0, 0, 0]]);
    assert_eq!(total(&joined), 8);
}

#[test]
fn test_distribute_bits_takes_needs_as_given() {
    let alloc = BitAllocator::new();
    let config = SbcConfig {
        channel_mode: ChannelMode::Mono,
        bitpool: 7,
        ..Default::default()
    };
    // Needs 3 and 1: slice 2 grants 2, slice 1 one more, slice 0 would
    // cost 3 with 4 left and is granted too.
    let mut needs = [[0i32; 8]; 2];
    needs[0][0] = 3;
    needs[0][1] = 1;
    needs[0][2] = -4;
    let bits = alloc.distribute_bits(&needs, &config, 0);
    assert_eq!(bits, [[5, 2, 0, 0, 0, 0, 0, 0], [0; 8]]);
}
