//! Constant tables of the SBC encoder, in fixed-point format.
//!
//! The prototype filters and cosine matrices are the ones the codec
//! mandates; a decoder relies on every coefficient.

use vstd::prelude::*;

verus! {

/// Prototype filter coefficients for 8-subband analysis
/// 80 coefficients (10 per subband), Q15 format
/// As tabulated for SBC in the A2DP profile.
pub const PROTO_8_80: [i32; 80] = [
    0x0000_0000,
    0x0000_0083,
    -2877,
    0x0000_1649,
    -9735,
    0x0000_61EC,
    -36987,
    0x0001_A8B6,
    -212481,
    0x000A_C911,
    // Window 1
    0x0000_0001,
    -127,
    0x0000_0B67,
    -5704,
    0x0000_267A,
    -15248,
    0x0000_9F97,
    -107119,
    0x0003_8083,
    -664312,
    // Window 2
    0x0000_0002,
    -238,
    0x0000_05A0,
    -3217,
    0x0000_0C9D,
    -6530,
    0x0000_3F27,
    -29167,
    0x0000_DF5D,
    -203322,
    // Window 3
    0x0000_0001,
    -26,
    0x0000_0110,
    -955,
    -15,
    -1322,
    -1722,
    0x0000_0336,
    -10336,
    0x0000_2C05,
    // Window 4
    0x0000_0000,
    0x0000_0000,
    -15,
    0x0000_0030,
    -166,
    0x0000_015D,
    -1252,
    0x0000_0951,
    -7316,
    0x0000_46E6,
    // Window 5
    0x0000_0000,
    0x0000_0001,
    -11,
    0x0000_002B,
    -130,
    0x0000_00D8,
    -417,
    0x0000_03A9,
    -2481,
    0x0000_14F2,
    // Window 6
    0x0000_0000,
    0x0000_0000,
    -3,
    0x0000_000A,
    -37,
    0x0000_002D,
    -82,
    0x0000_0069,
    -147,
    0x0000_0099,
    // Window 7
    0x0000_0000,
    0x0000_0000,
    0x0000_0000,
    0x0000_0001,
    -4,
    0x0000_0006,
    -7,
    0x0000_0009,
    -3,
    0x0000_0003,
];

/// Prototype filter coefficients for 4-subband analysis
/// 40 coefficients (10 per subband), Q15 format
pub const PROTO_4_40: [i32; 40] = [
    0x0000_0000,
    0x0000_0166,
    -5779,
    0x0000_2C95,
    -19470,
    0x0000_C3D9,
    -73976,
    0x0003_5142,
    -424964,
    0x0015_9222,
    // Window 1
    0x0000_0002,
    -253,
    0x0000_16B4,
    -11408,
    0x0000_4CD5,
    -30496,
    0x0001_3F4F,
    -214238,
    0x0007_0107,
    -1328624,
    // Window 2
    0x0000_0000,
    0x0000_0000,
    -15,
    0x0000_0061,
    -332,
    0x0000_02BA,
    -2504,
    0x0000_12A2,
    -14631,
    0x0000_8DCC,
    // Window 3
    0x0000_0000,
    0x0000_0000,
    -3,
    0x0000_0009,
    -43,
    0x0000_003B,
    -104,
    0x0000_007A,
    -67,
    0x0000_0046,
];

/// Cosine modulation matrix for 8-subband analysis (M8)
/// cos(pi/8 * (k+0.5) * (2*n+5)) for k=0..7, n=0..7
/// Q14 format
pub const COS_TABLE_8: [[i32; 8]; 8] = [
    [0x2D41, 0x2D41, 0x2D41, 0x2D41, 0x2D41, 0x2D41, 0x2D41, 0x2D41],
    [0x3B21, 0x3B21, 0x187E, -0x187E, -0x3B21, -0x3B21, -0x187E, 0x187E],
    [0x3B21, 0x0000, -0x3B21, -0x3B21, 0x0000, 0x3B21, 0x3B21, 0x0000],
    [0x3B21, -0x187E, -0x3B21, 0x187E, 0x3B21, -0x187E, -0x3B21, 0x187E],
    [0x2D41, -0x2D41, -0x2D41, 0x2D41, 0x2D41, -0x2D41, -0x2D41, 0x2D41],
    [0x187E, -0x3B21, 0x187E, 0x187E, -0x3B21, 0x187E, 0x187E, -0x3B21],
    [0x0000, -0x3B21, 0x3B21, 0x0000, -0x3B21, 0x3B21, 0x0000, -0x3B21],
    [-0x187E, -0x187E, 0x3B21, -0x3B21, 0x187E, 0x187E, -0x3B21, 0x3B21],
];

/// Cosine modulation matrix for 4-subband analysis (M4)
/// Q14 format
pub const COS_TABLE_4: [[i32; 4]; 4] = [
    [0x2D41, 0x2D41, 0x2D41, 0x2D41],
    [0x3B21, 0x187E, -0x187E, -0x3B21],
    [0x2D41, -0x2D41, -0x2D41, 0x2D41],
    [0x187E, -0x3B21, 0x3B21, -0x187E],
];

/// Loudness offset table for 8 subbands at different sampling frequencies
/// [freq_index][subband]
pub const LOUDNESS_OFFSET_8: [[i8; 8]; 4] = [
    // 16 kHz
    [-1, 0, 0, 0, 0, 0, 0, 1],
    // 32 kHz
    [-2, 0, 0, 0, 0, 0, 1, 2],
    // 44.1 kHz
    [-2, 0, 0, 0, 0, 0, 1, 2],
    // 48 kHz
    [-2, 0, 0, 0, 0, 0, 1, 2],
];

/// Loudness offset table for 4 subbands
pub const LOUDNESS_OFFSET_4: [[i8; 4]; 4] = [
    // 16 kHz
    [-1, 0, 0, 1],
    // 32 kHz
    [-2, 0, 0, 2],
    // 44.1 kHz
    [-2, 0, 0, 2],
    // 48 kHz
    [-2, 0, 0, 2],
];

/// Power-of-two table for scale factor decoding
/// 2^(scale_factor + 1) for quantization
pub const SCALE_FACTOR_LEVELS: [i32; 16] = [
    2, 4, 8, 16, 32, 64, 128, 256, 512, 1024, 2048, 4096, 8192, 16384, 32768, 65536,
];

/// Every prototype coefficient is below 2^21 in magnitude.
pub proof fn prototype_bounds()
    ensures
        forall|i: int| 0 <= i < 80 ==> -0x20_0000 < #[trigger] PROTO_8_80[i] < 0x20_0000,
        forall|i: int| 0 <= i < 40 ==> -0x20_0000 < #[trigger] PROTO_4_40[i] < 0x20_0000,
{
}

/// Every cosine coefficient is below 2^14 in magnitude.
pub proof fn cosine_bounds()
    ensures
        forall|k: int, i: int|
            0 <= k < 8 && 0 <= i < 8 ==> -0x4000 < #[trigger] COS_TABLE_8[k][i] < 0x4000,
        forall|k: int, i: int|
            0 <= k < 4 && 0 <= i < 4 ==> -0x4000 < #[trigger] COS_TABLE_4[k][i] < 0x4000,
{
}

} // verus!
