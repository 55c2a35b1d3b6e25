use bytes::Bytes;
use mitoxide::proto::frame::{FLAG_END_STREAM, FLAG_ERROR, FLAG_FLOW_CONTROL, FLAG_NONE};
use mitoxide::{Frame, FrameFlags, ProtocolError};

#[test]
fn test_frame_flags() {
    let mut flags = FrameFlags::none();
    assert!(!flags.has_flag(FrameFlags::end_stream()));

    flags.set_flag(FrameFlags::end_stream());
    assert!(flags.has_flag(FrameFlags::end_stream()));

    flags.clear_flag(FrameFlags::end_stream());
    assert!(!flags.has_flag(FrameFlags::end_stream()));
}

#[test]
fn test_frame_creation() {
    let payload = b"test payload".to_vec();
    let frame = Frame::data(1, 42, payload.clone());

    assert_eq!(frame.stream_id, 1);
    assert_eq!(frame.sequence, 42);
    assert_eq!(frame.flags, FrameFlags::none());
    assert_eq!(frame.payload, payload);
    assert!(!frame.is_end_stream());
    assert!(!frame.is_error());
}

#[test]
fn test_end_stream_frame() {
    let frame = Frame::end_stream(1, 42);
    assert!(frame.is_end_stream());
    assert!(!frame.is_error());
    assert_eq!(frame.payload.len(), 0);
}

#[test]
fn test_error_frame() {
    let payload = b"error message".to_vec();
    let frame = Frame::error(1, 42, payload.clone());
    assert!(!frame.is_end_stream());
    assert!(frame.is_error());
    assert_eq!(frame.payload, payload);
}

#[test]
fn test_msgpack_serialization_roundtrip() {
    let payload = b"test payload data".to_vec();
    let original = Frame::data(123, 456, payload);

    let serialized = original.to_msgpack().unwrap();
    let deserialized = Frame::from_msgpack(&serialized).unwrap();

    assert_eq!(original.stream_id, deserialized.stream_id);
    assert_eq!(original.sequence, deserialized.sequence);
    assert_eq!(original.flags, deserialized.flags);
    assert_eq!(original.payload, deserialized.payload);
}

#[test]
fn test_empty_payload_serialization() {
    let frame = Frame::end_stream(1, 1);
    let serialized = frame.to_msgpack().unwrap();
    let deserialized = Frame::from_msgpack(&serialized).unwrap();

    assert_eq!(frame.stream_id, deserialized.stream_id);
    assert_eq!(frame.sequence, deserialized.sequence);
    assert_eq!(frame.flags, deserialized.flags);
    assert_eq!(frame.payload, deserialized.payload);
    assert!(deserialized.is_end_stream());
}

#[test]
fn test_frame_roundtrip_properties() {
    let cases: Vec<(u32, u32, u8, Vec<u8>)> = vec![
        (0, 0, 0, vec![]),
        (127, 128, 255, vec![0u8; 255]),
        (255, 256, 1, vec![7u8; 256]),
        (65535, 65536, 2, vec![9u8; 1023]),
        (u32::MAX, u32::MAX, 4, vec![1, 2, 3]),
        (0x1234_5678, 0x00ff_ff00, 0x80, vec![0xff; 70000]),
    ];
    for (stream_id, sequence, flags, payload) in cases {
        let frame = Frame::new(stream_id, sequence, FrameFlags(flags), payload);
        let serialized = frame.to_msgpack().unwrap();
        let deserialized = Frame::from_msgpack(&serialized).unwrap();
        assert_eq!(frame.stream_id, deserialized.stream_id);
        assert_eq!(frame.sequence, deserialized.sequence);
        assert_eq!(frame.flags, deserialized.flags);
        assert_eq!(frame.payload, deserialized.payload);
    }
}

#[test]
fn flag_bits_have_their_values() {
    assert_eq!(FrameFlags::none(), FrameFlags(0));
    assert_eq!(FrameFlags::end_stream(), FrameFlags(1));
    assert_eq!(FrameFlags::error(), FrameFlags(2));
    assert_eq!(FrameFlags::flow_control(), FrameFlags(4));
    assert_eq!((FLAG_NONE, FLAG_END_STREAM, FLAG_ERROR, FLAG_FLOW_CONTROL), (0, 1, 2, 4));
}

#[test]
fn set_and_clear_leave_other_bits_alone() {
    let mut flags = FrameFlags(0b0000_0110);
    flags.set_flag(FrameFlags::end_stream());
    assert_eq!(flags, FrameFlags(0b0000_0111));
    flags.clear_flag(FrameFlags::error());
    assert_eq!(flags, FrameFlags(0b0000_0101));
    assert!(flags.has_flag(FrameFlags::flow_control()));
    assert!(!flags.has_flag(FrameFlags::none()));
}

#[test]
fn wire_form_is_exact() {
    let frame = Frame::data(1, 42, b"hi".to_vec());
    assert_eq!(
        frame.to_msgpack().unwrap(),
        vec![0x94, 0x01, 0x2a, 0x00, 0xc4, 0x02, b'h', b'i']
    );
    let frame = Frame::new(300, 70000, FrameFlags(200), vec![]);
    assert_eq!(
        frame.to_msgpack().unwrap(),
        vec![0x94, 0xcd, 0x01, 0x2c, 0xce, 0x00, 0x01, 0x11, 0x70, 0xcc, 0xc8, 0xc4, 0x00]
    );
}

#[test]
fn wire_form_is_the_compact_binary_encoding_of_the_record() {
    let cases: Vec<(u32, u32, u8, Vec<u8>)> = vec![
        (1, 42, 0, b"test payload".to_vec()),
        (123, 456, 1, vec![]),
        (70000, u32::MAX, 255, vec![0xab; 300]),
        (128, 255, 127, vec![0x00; 65536]),
    ];
    for (stream_id, sequence, flags, payload) in cases {
        let frame = Frame::new(stream_id, sequence, FrameFlags(flags), payload.clone());
        let expected =
            rmp_serde::to_vec(&(stream_id, sequence, flags, Bytes::from(payload.clone()))).unwrap();
        assert_eq!(frame.to_msgpack().unwrap(), expected);
        let (s, q, f, p): (u32, u32, u8, Bytes) =
            rmp_serde::from_slice(&frame.to_msgpack().unwrap()).unwrap();
        assert_eq!((s, q, f, p.to_vec()), (stream_id, sequence, flags, payload));
    }
}

#[test]
fn bytes_that_are_no_frame_are_refused() {
    let bad: Vec<Vec<u8>> = vec![
        vec![],
        vec![0xff, 0xff, 0xff, 0xff],
        vec![0x93, 0x01, 0x02, 0x00],
        vec![0x94, 0x01, 0x02, 0x00],
        vec![0x94, 0x01, 0x02, 0x00, 0xc4, 0x02, b'h'],
        vec![0x94, 0x01, 0x02, 0x00, 0xc4, 0x01, b'h', b'i'],
        // an integer that is not in its shortest form
        vec![0x94, 0xcc, 0x01, 0x02, 0x00, 0xc4, 0x00],
        // flags that do not fit a byte
        vec![0x94, 0x01, 0x02, 0xcd, 0x01, 0x00, 0xc4, 0x00],
    ];
    for bytes in bad {
        assert!(matches!(
            Frame::from_msgpack(&bytes),
            Err(ProtocolError::Serialization(_))
        ));
    }
}

#[test]
fn payload_size_is_the_length_of_the_payload() {
    assert_eq!(Frame::data(1, 0, vec![0u8; 13]).payload_size(), 13);
    assert_eq!(Frame::end_stream(1, 0).payload_size(), 0);
}
