use hlk_ld2450::frame_sync::{header_match_step, next_radar_targets_from};
use hlk_ld2450::RadarError;

const FRAME: [u8; 30] = [
    0xAA, 0xFF, 0x03, 0x00, 0x0E, 0x03, 0xB1, 0x86, 0x10, 0x00, 0x40, 0x01, 0x00, 0x00, 0x00,
    0x00, 0x00, 0x00, 0x00, 0x00, 0x00, 0x00, 0x00, 0x00, 0x00, 0x00, 0x00, 0x00, 0x55, 0xCC,
];

#[test]
fn test_ld2450_next_radar_targets() {
    let data: [u8; 30] = [
        0xAA, 0xFF, 0x03, 0x00, 0x0E, 0x03, 0xB1, 0x86, 0x10, 0x00, 0x40, 0x01, 0x00, 0x00, 0x00,
        0x00, 0x00, 0x00, 0x00, 0x00, 0x00, 0x00, 0x00, 0x00, 0x00, 0x00, 0x00, 0x00, 0x55, 0xCC,
    ];
    let (targets, consumed) = next_radar_targets_from(&data);
    let targets = targets.unwrap();
    assert_eq!(consumed, 30);
    assert_eq!(targets.len(), 1);
    assert_eq!(targets[0].x_coordinate, -782);
    assert_eq!(targets[0].y_coordinate, 1713);
    assert_eq!(targets[0].speed, -16);
    assert_eq!(targets[0].resolution, 320);
}

#[test]
fn test_ld2450_next_radar_targets_out_of_sync() {
    let data: [u8; 35] = [
        0x00, 0x00, 0xFF, 0xAA, 0xFF, 0x03, 0x00, 0x0E, 0x03, 0xB1, 0x86, 0x10, 0x00, 0x40, 0x01,
        0x00, 0x00, 0x00, 0x00, 0x00, 0x00, 0x00, 0x00, 0x00, 0x00, 0x00, 0x00, 0x00, 0x00, 0x00,
        0x00, 0x55, 0xCC, 0xFF, 0xAA,
    ];
    let (targets, _) = next_radar_targets_from(&data);
    let targets = targets.unwrap();
    assert_eq!(targets.len(), 1);
    assert_eq!(targets[0].x_coordinate, -782);
    assert_eq!(targets[0].y_coordinate, 1713);
    assert_eq!(targets[0].speed, -16);
    assert_eq!(targets[0].resolution, 320);
}

#[test]
fn test_ld2450_next_radar_targets_sneaky_out_of_sync() {
    // partial header match
    let data: [u8; 35] = [
        0xAA, 0xFF, 0xFF, 0xAA, 0xFF, 0x03, 0x00, 0x0E, 0x03, 0xB1, 0x86, 0x10, 0x00, 0x40, 0x01,
        0x00, 0x00, 0x00, 0x00, 0x00, 0x00, 0x00, 0x00, 0x00, 0x00, 0x00, 0x00, 0x00, 0x00, 0x00,
        0x00, 0x55, 0xCC, 0xFF, 0xAA,
    ];
    let (targets, _) = next_radar_targets_from(&data);
    let targets = targets.unwrap();
    assert_eq!(targets.len(), 1);
    assert_eq!(targets[0].x_coordinate, -782);
    assert_eq!(targets[0].y_coordinate, 1713);
    assert_eq!(targets[0].speed, -16);
    assert_eq!(targets[0].resolution, 320);
}

#[test]
fn test_ld2450_next_radar_targets_invalid_length() {
    // partial header match
    let data: [u8; 35] = [
        0xAA, 0xFF, 0xFF, 0xAA, 0xFF, 0x03, 0x00, 0x0E, 0x03, 0xB1, 0x86, 0x10, 0x00, 0x40, 0x01,
        0x00, 0x00, 0x00, 0x00, 0x00, 0x00, 0x00, 0x00, 0x00, 0x00, 0x00, 0x00, 0x00, 0x00, 0x00,
        0x00, 0x00, 0x55, 0xCC, 0xFF,
    ];
    let (targets, _) = next_radar_targets_from(&data);
    assert_eq!(targets, Err(RadarError::UnexpectedFrameSize));
}

#[test]
fn header_overlapping_a_partial_header_is_found() {
    // AA FF 03 then the real header: the mismatching AA restarts the match
    let mut data = vec![0xAA, 0xFF, 0x03];
    data.extend_from_slice(&FRAME);
    let (targets, consumed) = next_radar_targets_from(&data);
    assert_eq!(consumed, 33);
    assert_eq!(targets.unwrap()[0].x_coordinate, -782);
}

#[test]
fn trailing_bytes_after_frame_are_left_unread() {
    let mut data = FRAME.to_vec();
    data.extend_from_slice(&[0xAA, 0xFF, 0x03, 0x00, 0x01]);
    let (targets, consumed) = next_radar_targets_from(&data);
    assert_eq!(consumed, 30);
    assert_eq!(targets.unwrap().len(), 1);
}

#[test]
fn second_frame_follows_after_first() {
    let mut data = FRAME.to_vec();
    let mut second = FRAME;
    second[4] = 0x01;
    second[5] = 0x80;
    data.extend_from_slice(&second);
    let (first, consumed) = next_radar_targets_from(&data);
    assert_eq!(first.unwrap()[0].x_coordinate, -782);
    let (next, consumed2) = next_radar_targets_from(&data[consumed..]);
    assert_eq!(consumed2, 30);
    assert_eq!(next.unwrap()[0].x_coordinate, 1);
}

#[test]
fn stream_ending_early_is_a_serial_error() {
    let empty: [u8; 0] = [];
    assert_eq!(next_radar_targets_from(&empty), (Err(RadarError::SerialError), 0));
    let garbage = [0x01, 0x02, 0xAA, 0xFF, 0x03];
    assert_eq!(next_radar_targets_from(&garbage), (Err(RadarError::SerialError), 5));
    let (r, consumed) = next_radar_targets_from(&FRAME[..29]);
    assert_eq!(r, Err(RadarError::SerialError));
    assert_eq!(consumed, 29);
}

#[test]
fn corrupted_eof_is_a_framing_error_and_consumes_the_frame() {
    let mut data = FRAME.to_vec();
    data[29] = 0xCD;
    data.extend_from_slice(&FRAME);
    let (r, consumed) = next_radar_targets_from(&data);
    assert_eq!(r, Err(RadarError::UnexpectedFrameSize));
    assert_eq!(consumed, 30);
    let (r, _) = next_radar_targets_from(&data[consumed..]);
    assert_eq!(r.unwrap().len(), 1);
}

#[test]
fn header_match_steps() {
    assert_eq!(header_match_step(0, 0xAA), 1);
    assert_eq!(header_match_step(1, 0xFF), 2);
    assert_eq!(header_match_step(2, 0x03), 3);
    assert_eq!(header_match_step(3, 0x00), 4);
    assert_eq!(header_match_step(3, 0xAA), 1);
    assert_eq!(header_match_step(2, 0x00), 0);
    assert_eq!(header_match_step(0, 0xFF), 0);
}
