use cameraunit::gain::{normalized_to_raw, raw_to_normalized, GAIN_SCALE};

#[test]
fn endpoints_map_exactly() {
    assert_eq!(normalized_to_raw(0, 0, 100), 0);
    assert_eq!(normalized_to_raw(GAIN_SCALE, 0, 100), 100);
    assert_eq!(raw_to_normalized(0, 0, 100), 0);
    assert_eq!(raw_to_normalized(100, 0, 100), GAIN_SCALE);
}

#[test]
fn round_trip_is_within_one_raw_step() {
    // Zero, half and full scale on a 0..=100 raw range: the round-trip
    // error, in raw-gain steps, stays below one.
    for n in [0u32, GAIN_SCALE / 2, GAIN_SCALE] {
        let raw = normalized_to_raw(n, 0, 100);
        let back = raw_to_normalized(raw, 0, 100);
        let err = if back >= n { back - n } else { n - back };
        assert!(u64::from(err) * 100 <= u64::from(GAIN_SCALE));
    }
}

#[test]
fn half_scale_lands_mid_range() {
    assert_eq!(normalized_to_raw(GAIN_SCALE / 2, 0, 100), 50);
    assert_eq!(raw_to_normalized(50, 0, 100), GAIN_SCALE / 2);
}

#[test]
fn offset_range_maps_linearly() {
    assert_eq!(normalized_to_raw(0, 30, 510), 30);
    assert_eq!(normalized_to_raw(GAIN_SCALE, 30, 510), 510);
    assert_eq!(raw_to_normalized(30, 30, 510), 0);
    assert_eq!(raw_to_normalized(510, 30, 510), GAIN_SCALE);
    assert_eq!(normalized_to_raw(GAIN_SCALE / 2, 30, 510), 270);
}
