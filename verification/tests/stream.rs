use ardeck::device::stream::{dec_records, FrameReader};
use ardeck::device::switch::SwitchKind;

#[test]
fn reader_hands_out_frame_when_closed() {
    let mut reader = FrameReader::new();
    assert!(reader.feed(&[3, 11]).is_empty());
    assert!(reader.feed(&[22, 2, 33]).is_empty());
    assert_eq!(reader.feed(&[0]), vec![vec![11, 22, 0, 33]]);
}

#[test]
fn reader_hands_out_frames_in_order() {
    let mut reader = FrameReader::new();
    let closed = reader.feed(&[1, 1, 0, 1, 2, 11, 1, 0, 2, 1]);
    assert_eq!(closed, vec![vec![0], vec![0, 11, 0]]);
    assert_eq!(reader.feed(&[0, 2, 9, 0]), vec![vec![1], vec![9]]);
}

#[test]
fn reader_drops_frame_that_cannot_be_decoded() {
    let mut reader = FrameReader::new();
    let closed = reader.feed(&[9, 1, 0, 2, 1, 0]);
    assert_eq!(closed, vec![vec![1]]);
}

#[test]
fn reader_goes_on_behind_a_bad_frame() {
    let mut reader = FrameReader::new();
    assert!(reader.feed(&[200, 1, 2]).is_empty());
    assert!(reader.feed(&[3, 0]).is_empty());
    assert_eq!(reader.feed(&[2, 1, 0]), vec![vec![1]]);
}

#[test]
fn reader_takes_lone_closing_bytes_as_empty_frames() {
    let mut reader = FrameReader::new();
    let closed = reader.feed(&[0, 0, 1, 0]);
    assert_eq!(closed, vec![Vec::<u8>::new(), Vec::new(), Vec::new()]);
}

#[test]
fn reader_clear_drops_open_frame() {
    let mut reader = FrameReader::new();
    assert!(reader.feed(&[9, 9, 9]).is_empty());
    reader.clear();
    assert_eq!(reader.feed(&[2, 1, 0]), vec![vec![1]]);
}

#[test]
fn reader_of_no_bytes_gives_nothing() {
    let mut reader = FrameReader::new();
    assert!(reader.feed(&[]).is_empty());
    assert!(reader.feed(&[2]).is_empty());
    assert!(reader.feed(&[]).is_empty());
    assert_eq!(reader.feed(&[1, 0]), vec![vec![1]]);
}

#[test]
fn dec_records_leaves_out_empty_payloads() {
    let frames = vec![vec![1], vec![], vec![4, 1], vec![], vec![7]];
    let records = dec_records(&frames);
    assert_eq!(records.len(), 3);
    assert_eq!(records[0].kind, SwitchKind::Analog);
    assert_eq!(records[1].kind, SwitchKind::Digital);
    assert_eq!(records[2].kind, SwitchKind::Analog);
}

#[test]
fn dec_records_of_nothing_is_empty() {
    assert!(dec_records(&vec![]).is_empty());
}
