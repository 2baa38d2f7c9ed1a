use hlk_ld2450::codec::i16_from_le_weird_sign;
use hlk_ld2450::radar_target::decode_radar_targets;
use hlk_ld2450::{RadarError, RadarTarget};

#[test]
fn test_radar_target_from() {
    let data: [u8; 8] = [0x0E, 0x03, 0xB1, 0x86, 0x10, 0x00, 0x40, 0x01];
    let target = RadarTarget::try_from(&data[..]).unwrap();
    assert_eq!(target.x_coordinate, -782);
    assert_eq!(target.y_coordinate, 1713);
    assert_eq!(target.speed, -16);
    assert_eq!(target.resolution, 320);
}

#[test]
fn test_full_frame() {
    let data: [u8; 24] = [
        0x0E, 0x03, 0xB1, 0x86, 0x10, 0x00, 0x40, 0x01, 0x00, 0x00, 0x00, 0x00, 0x00, 0x00,
        0x00, 0x00, 0x00, 0x00, 0x00, 0x00, 0x00, 0x00, 0x00, 0x00,
    ];
    let targets = decode_radar_targets(&data).unwrap();
    assert_eq!(targets.len(), 1);
    assert_eq!(targets[0].x_coordinate, -782);
}

#[test]
fn slot_of_wrong_length_is_a_framing_error() {
    let data: [u8; 7] = [0x0E, 0x03, 0xB1, 0x86, 0x10, 0x00, 0x40];
    assert_eq!(RadarTarget::try_from(&data[..]), Err(RadarError::UnexpectedFrameSize));
    let empty: [u8; 0] = [];
    assert_eq!(RadarTarget::from_slot(&empty[..]), Err(RadarError::UnexpectedFrameSize));
}

#[test]
fn weird_sign_set_bit_is_positive() {
    assert_eq!(i16_from_le_weird_sign([0x0E, 0x83]), 782);
    assert_eq!(i16_from_le_weird_sign([0x0E, 0x03]), -782);
    assert_eq!(i16_from_le_weird_sign([0x00, 0x80]), 0);
    assert_eq!(i16_from_le_weird_sign([0x00, 0x00]), 0);
    assert_eq!(i16_from_le_weird_sign([0xFF, 0xFF]), 32767);
    assert_eq!(i16_from_le_weird_sign([0xFF, 0x7F]), -32767);
}

#[test]
fn weird_sign_round_trip_over_magnitudes() {
    for m in [0u16, 1, 255, 256, 782, 1713, 0x7FFF] {
        let lo = (m % 256) as u8;
        let hi = (m / 256) as u8;
        assert_eq!(i16_from_le_weird_sign([lo, hi | 0x80]), m as i16);
        assert_eq!(i16_from_le_weird_sign([lo, hi]), -(m as i16));
    }
}

#[test]
fn untracked_slots_are_dropped_and_order_kept() {
    let mut data = [0u8; 24];
    // slot 0: x = 10, y = 20 (positive), speed = 0, resolution = 5
    data[0..8].copy_from_slice(&[0x0A, 0x80, 0x14, 0x80, 0x00, 0x00, 0x05, 0x00]);
    // slot 1 stays all zero
    // slot 2: x = -1, y = 1, speed = -2, resolution = 0x0102
    data[16..24].copy_from_slice(&[0x01, 0x00, 0x01, 0x80, 0x02, 0x00, 0x02, 0x01]);
    let targets = decode_radar_targets(&data).unwrap();
    assert_eq!(targets.len(), 2);
    assert_eq!(
        targets[0],
        RadarTarget { x_coordinate: 10, y_coordinate: 20, speed: 0, resolution: 5 }
    );
    assert_eq!(
        targets[1],
        RadarTarget { x_coordinate: -1, y_coordinate: 1, speed: -2, resolution: 0x0102 }
    );
}

#[test]
fn three_tracked_slots_and_no_tracked_slot() {
    let mut data = [0u8; 24];
    for i in 0..3 {
        data[i * 8 + 6] = (i + 1) as u8;
    }
    let targets = decode_radar_targets(&data).unwrap();
    assert_eq!(targets.len(), 3);
    assert_eq!(targets[2].resolution, 3);
    let none = decode_radar_targets(&[0u8; 24]).unwrap();
    assert_eq!(none.len(), 0);
}

#[test]
fn zero_with_sign_bit_counts_as_untracked() {
    // sign bit set on a zero magnitude still decodes to zero: the slot is untracked
    let t = RadarTarget::try_from(&[0x00, 0x80, 0x00, 0x80, 0x00, 0x80, 0x00, 0x00][..]).unwrap();
    assert!(t.is_untracked());
    let t = RadarTarget::try_from(&[0x00, 0x00, 0x00, 0x00, 0x00, 0x00, 0x01, 0x00][..]).unwrap();
    assert!(!t.is_untracked());
}
