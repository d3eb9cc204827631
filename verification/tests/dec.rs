use ardeck::device::dec::{dec_cobs, dec_raw, dec_raw_with, SwitchFields};
use ardeck::device::switch::SwitchKind;

#[test]
fn dec() {
    assert_eq!(dec_cobs(&vec![01, 01, 00]), Some(vec![00]));
    assert_eq!(dec_cobs(&vec![01, 01, 01, 00]), Some(vec![00, 00]));
    assert_eq!(dec_cobs(&vec![01, 02, 11, 01, 00]), Some(vec![00, 11, 00]));
    assert_eq!(
        dec_cobs(&vec![03, 11, 22, 02, 33, 00]),
        Some(vec![11, 22, 00, 33])
    );
}

#[test]
fn dec_cobs_rejects_empty_input() {
    assert_eq!(dec_cobs(&[]), None);
}

#[test]
fn dec_cobs_rejects_input_without_closing_zero() {
    assert_eq!(dec_cobs(&[1]), None);
    assert_eq!(dec_cobs(&[1, 1]), None);
    assert_eq!(dec_cobs(&[3, 11, 22, 2, 33]), None);
    assert_eq!(dec_cobs(&[0, 0, 7]), None);
}

#[test]
fn dec_cobs_rejects_distance_past_the_end() {
    assert_eq!(dec_cobs(&[5, 1, 0]), None);
    assert_eq!(dec_cobs(&[3, 0]), None);
    assert_eq!(dec_cobs(&[1, 9, 1, 0]), None);
    assert_eq!(dec_cobs(&[2, 7, 255, 0]), None);
    assert_eq!(dec_cobs(&[3, 11, 22, 3, 33, 0]), None);
}

#[test]
fn dec_cobs_of_frame_without_payload() {
    assert_eq!(dec_cobs(&[1, 0]), Some(vec![]));
    assert_eq!(dec_cobs(&[0]), Some(vec![]));
}

#[test]
fn dec_cobs_keeps_bytes_that_are_no_distance() {
    assert_eq!(dec_cobs(&[4, 7, 8, 9, 0]), Some(vec![7, 8, 9]));
    assert_eq!(dec_cobs(&[2, 200, 3, 1, 255, 0]), Some(vec![200, 0, 1, 255]));
}

#[test]
fn dec_cobs_stops_at_first_zero_distance() {
    assert_eq!(dec_cobs(&[1, 0, 5, 0]), Some(vec![0, 5]));
    assert_eq!(dec_cobs(&[0, 9, 9, 0]), Some(vec![9, 9]));
}

#[test]
fn dec_cobs_of_longest_run() {
    let mut frame = vec![255u8];
    let mut payload = Vec::new();
    for k in 0..254u32 {
        let byte = (k % 200 + 1) as u8;
        frame.push(byte);
        payload.push(byte);
    }
    frame.push(0);
    assert_eq!(frame.len(), 256);
    assert_eq!(dec_cobs(&frame), Some(payload));
}

#[test]
fn dec_cobs_gives_the_same_twice() {
    let frames: Vec<Vec<u8>> = vec![
        vec![],
        vec![0],
        vec![1, 0],
        vec![3, 11, 22, 2, 33, 0],
        vec![9, 1, 0],
        vec![1, 2, 3],
    ];
    for frame in frames {
        let kept = frame.clone();
        let first = dec_cobs(&frame);
        let second = dec_cobs(&frame);
        assert_eq!(first, second);
        assert_eq!(frame, kept);
    }
}

#[test]
fn dec_raw_rejects_empty_payload() {
    assert!(dec_raw(&[]).is_none());
}

#[test]
fn dec_raw_reads_kind_from_lowest_bit() {
    assert_eq!(dec_raw(&[0]).unwrap().kind, SwitchKind::Digital);
    assert_eq!(dec_raw(&[1]).unwrap().kind, SwitchKind::Analog);
    assert_eq!(dec_raw(&[2]).unwrap().kind, SwitchKind::Digital);
    assert_eq!(dec_raw(&[3, 9, 9]).unwrap().kind, SwitchKind::Analog);
    assert_eq!(dec_raw(&[254, 1]).unwrap().kind, SwitchKind::Digital);
    assert_eq!(dec_raw(&[255]).unwrap().kind, SwitchKind::Analog);
}

#[test]
fn dec_raw_leaves_other_fields_at_zero() {
    let info = dec_raw(&[1, 17, 3, 4, 5]).unwrap();
    assert_eq!(info.kind, SwitchKind::Analog);
    assert_eq!(info.pin, 0);
    assert_eq!(info.state, 0);
    assert_eq!(info.timestamp, 0);
}

#[test]
fn dec_raw_with_reads_fields_by_layout() {
    let layout = |rest: &[u8]| SwitchFields {
        pin: rest[0],
        state: u16::from(rest[1]) * 256 + u16::from(rest[2]),
        timestamp: rest.len() as i64,
    };
    let info = dec_raw_with(&[1, 13, 2, 3], layout).unwrap();
    assert_eq!(info.kind, SwitchKind::Analog);
    assert_eq!(info.pin, 13);
    assert_eq!(info.state, 515);
    assert_eq!(info.timestamp, 3);
    let info = dec_raw_with(&[6, 2, 0, 1], layout).unwrap();
    assert_eq!(info.kind, SwitchKind::Digital);
    assert_eq!(info.pin, 2);
    assert_eq!(info.state, 1);
}

#[test]
fn dec_raw_with_rejects_empty_payload_without_calling_layout() {
    let layout = |_rest: &[u8]| -> SwitchFields { unreachable!() };
    assert!(dec_raw_with(&[], layout).is_none());
}

#[test]
fn dec_raw_with_hands_over_bytes_after_the_first() {
    let layout = |rest: &[u8]| SwitchFields {
        pin: rest.len() as u8,
        state: 0,
        timestamp: 0,
    };
    assert_eq!(dec_raw_with(&[1], layout).unwrap().pin, 0);
    assert_eq!(dec_raw_with(&[1, 5, 5, 5, 5], layout).unwrap().pin, 4);
}

#[test]
fn frame_decodes_to_record() {
    let payload = dec_cobs(&[2, 1, 1, 0]).unwrap();
    assert_eq!(payload, vec![1, 0]);
    let info = dec_raw(&payload).unwrap();
    assert_eq!(info.kind, SwitchKind::Analog);
}
