use a2dp_source::sbc_encoder::tables::{
    COS_TABLE_4, COS_TABLE_8, LOUDNESS_OFFSET_4, LOUDNESS_OFFSET_8, PROTO_4_40, PROTO_8_80,
    SCALE_FACTOR_LEVELS,
};

#[test]
fn test_proto_8_80_length() {
    assert_eq!(PROTO_8_80.len(), 80);
}

#[test]
fn test_cos_table_8_dimensions() {
    assert_eq!(COS_TABLE_8.len(), 8);
    assert_eq!(COS_TABLE_8[0].len(), 8);
}

#[test]
fn test_scale_factor_levels() {
    assert_eq!(SCALE_FACTOR_LEVELS[0], 2);
    assert_eq!(SCALE_FACTOR_LEVELS[15], 65536);
}

#[test]
fn test_scale_factor_levels_are_powers_of_two() {
    for s in 0..16 {
        assert_eq!(SCALE_FACTOR_LEVELS[s], 1i32 << (s + 1));
    }
}

#[test]
fn test_table_spot_values() {
    assert_eq!(PROTO_4_40.len(), 40);
    assert_eq!(PROTO_8_80[9], 0x000A_C911);
    assert_eq!(PROTO_8_80[19], -664312);
    assert_eq!(PROTO_4_40[9], 0x0015_9222);
    assert_eq!(PROTO_4_40[19], -1328624);
    assert_eq!(COS_TABLE_8[7][3], -0x3B21);
    assert_eq!(COS_TABLE_4[3][1], -0x3B21);
    assert_eq!(LOUDNESS_OFFSET_8[0], [-1, 0, 0, 0, 0, 0, 0, 1]);
    assert_eq!(LOUDNESS_OFFSET_8[2], [-2, 0, 0, 0, 0, 0, 1, 2]);
    assert_eq!(LOUDNESS_OFFSET_4[0], [-1, 0, 0, 1]);
    assert_eq!(LOUDNESS_OFFSET_4[3], [-2, 0, 0, 2]);
}
