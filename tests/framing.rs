use necko_xray::framing::{decode_frame, encode_frame, frame_length, FrameError};

#[test]
fn frame_starts_with_big_endian_length() {
    let frame = encode_frame(&vec![7u8, 8, 9]).unwrap();
    assert_eq!(frame, vec![0, 0, 0, 3, 7, 8, 9]);
    let big = vec![1u8; 300];
    let frame = encode_frame(&big).unwrap();
    assert_eq!(&frame[..4], &[0, 0, 1, 44]);
    assert_eq!(frame_length(&frame[..4]), Ok(300));
}

#[test]
fn frame_round_trip() {
    for payload in [vec![], vec![0u8], vec![1u8, 2, 3, 4, 5], vec![255u8; 70000]] {
        let frame = encode_frame(&payload).unwrap();
        assert_eq!(decode_frame(&frame), Ok(payload.clone()));
        let mut longer = frame.clone();
        longer.extend_from_slice(&[9, 9]);
        assert_eq!(decode_frame(&longer), Ok(payload));
    }
}

#[test]
fn short_frames_are_refused() {
    assert_eq!(decode_frame(&[0, 0, 1]), Err(FrameError::ShortHeader));
    assert_eq!(decode_frame(&[0, 0, 0, 5, 1, 2]), Err(FrameError::ShortBody));
    assert_eq!(frame_length(&[1, 2]), Err(FrameError::ShortHeader));
}
