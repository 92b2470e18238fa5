use origin_sdk::frame::{encode_frame, FrameBuffer};

#[test]
fn test_frame_round_trip() {
    let payload = b"48656c6c6f world frame";
    let wire = encode_frame(payload);
    assert_eq!(wire.len(), payload.len() + 1);
    assert_eq!(wire.last(), Some(&0u8));

    let mut buf = FrameBuffer::new();
    buf.push_bytes(&wire);
    let frame = buf.take_frame().expect("one full frame buffered");
    assert_eq!(frame.as_slice(), payload);
    assert_eq!(buf.take_frame(), None);
}

#[test]
fn test_take_frame_waits_for_terminator() {
    let mut buf = FrameBuffer::new();
    buf.push_bytes(b"partial");
    assert_eq!(buf.take_frame(), None);
    buf.push_bytes(b" frame\x00rest");
    assert_eq!(
        buf.take_frame().expect("terminator arrived").as_slice(),
        b"partial frame"
    );
    assert_eq!(buf.take_frame(), None);
    buf.push_bytes(b"\x00");
    assert_eq!(buf.take_frame().expect("second frame").as_slice(), b"rest");
}

#[test]
fn test_empty_frames_are_frames() {
    let mut buf = FrameBuffer::new();
    buf.push_bytes(b"\x00\x00abc\x00");
    assert_eq!(buf.take_frame().expect("empty frame").len(), 0);
    assert_eq!(buf.take_frame().expect("empty frame").len(), 0);
    assert_eq!(buf.take_frame().expect("frame").as_slice(), b"abc");
    assert_eq!(buf.take_frame(), None);
}
