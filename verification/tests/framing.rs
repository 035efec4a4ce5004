use ptd_cli::framing::{encode_frame, frame_length};

#[test]
fn frame_prefixes_the_length() {
    let body = br#"{"type":"hello"}"#.to_vec();
    let frame = encode_frame(&body).unwrap();
    assert_eq!(frame.len(), body.len() + 4);
    assert_eq!(&frame[..4], &(body.len() as u32).to_le_bytes());
    assert_eq!(&frame[4..], &body[..]);
    assert_eq!(frame_length([frame[0], frame[1], frame[2], frame[3]]) as usize, body.len());
}

#[test]
fn empty_body_frame() {
    assert_eq!(encode_frame(&Vec::new()).unwrap(), vec![0, 0, 0, 0]);
}

#[test]
fn length_prefix_values() {
    assert_eq!(frame_length([0x01, 0x02, 0x00, 0x00]), 513);
    assert_eq!(frame_length([0xff, 0xff, 0xff, 0xff]), u32::MAX);
    let body = vec![7u8; 300];
    let frame = encode_frame(&body).unwrap();
    assert_eq!(&frame[..4], &[44, 1, 0, 0]);
}
