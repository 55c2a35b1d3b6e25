use mitoxide::proto::codec::MAX_FRAME_SIZE;
use mitoxide::{Frame, FrameCodec, ProtocolError};

fn read_frame(codec: &mut FrameCodec, input: &mut &[u8]) -> Result<Option<Frame>, ProtocolError> {
    loop {
        if let Some(frame) = codec.try_decode_frame()? {
            return Ok(Some(frame));
        }
        let n = input.len().min(8192);
        if n == 0 {
            codec.end_of_input()?;
            return Ok(None);
        }
        codec.feed(&input[..n]);
        *input = &input[n..];
    }
}

#[test]
fn test_frame_encode_decode() {
    let codec = FrameCodec::new();
    let frame = Frame::data(1, 42, b"test payload".to_vec());

    let encoded = codec.encode_frame(&frame).unwrap();
    assert!(encoded.len() > 4);

    let mut codec2 = FrameCodec::new();
    let mut cursor = &encoded[..];
    let decoded = read_frame(&mut codec2, &mut cursor).unwrap().unwrap();

    assert_eq!(frame.stream_id, decoded.stream_id);
    assert_eq!(frame.sequence, decoded.sequence);
    assert_eq!(frame.flags, decoded.flags);
    assert_eq!(frame.payload, decoded.payload);
}

#[test]
fn test_write_read_frame() {
    let codec = FrameCodec::new();
    let frame = Frame::end_stream(123, 456);

    let buffer = codec.encode_frame(&frame).unwrap();

    let mut codec2 = FrameCodec::new();
    let mut cursor = &buffer[..];
    let decoded = read_frame(&mut codec2, &mut cursor).unwrap().unwrap();

    assert_eq!(frame.stream_id, decoded.stream_id);
    assert_eq!(frame.sequence, decoded.sequence);
    assert!(decoded.is_end_stream());
}

#[test]
fn test_partial_frame_reading() {
    let codec = FrameCodec::new();
    let frame = Frame::data(1, 1, b"test".to_vec());
    let encoded = codec.encode_frame(&frame).unwrap();

    let mut codec2 = FrameCodec::new();
    let mid = encoded.len() / 2;
    codec2.feed(&encoded[..mid]);

    let result1 = codec2.try_decode_frame().unwrap();
    assert!(result1.is_none());
    assert_eq!(codec2.buffer_size(), mid);

    codec2.feed(&encoded[mid..]);

    let result2 = codec2.try_decode_frame().unwrap().unwrap();

    assert_eq!(frame.stream_id, result2.stream_id);
    assert_eq!(frame.payload, result2.payload);
    assert_eq!(codec2.buffer_size(), 0);
}

#[test]
fn test_multiple_frames_in_buffer() {
    let codec = FrameCodec::new();
    let frame1 = Frame::data(1, 1, b"first".to_vec());
    let frame2 = Frame::data(2, 2, b"second".to_vec());

    let encoded1 = codec.encode_frame(&frame1).unwrap();
    let encoded2 = codec.encode_frame(&frame2).unwrap();

    let mut combined = Vec::new();
    combined.extend_from_slice(&encoded1);
    combined.extend_from_slice(&encoded2);

    let mut codec2 = FrameCodec::new();
    let mut cursor = &combined[..];

    let decoded1 = read_frame(&mut codec2, &mut cursor).unwrap().unwrap();
    assert_eq!(frame1.stream_id, decoded1.stream_id);
    assert_eq!(frame1.payload, decoded1.payload);

    let decoded2 = read_frame(&mut codec2, &mut cursor).unwrap().unwrap();
    assert_eq!(frame2.stream_id, decoded2.stream_id);
    assert_eq!(frame2.payload, decoded2.payload);

    let result3 = read_frame(&mut codec2, &mut cursor).unwrap();
    assert!(result3.is_none());
}

#[test]
fn test_frame_too_large() {
    let codec = FrameCodec::with_max_frame_size(100);
    let large_payload = vec![0u8; 200];
    let frame = Frame::data(1, 1, large_payload);

    let result = codec.encode_frame(&frame);
    assert!(matches!(result, Err(ProtocolError::FrameTooLarge { .. })));
}

#[test]
fn test_invalid_frame_data() {
    let mut codec = FrameCodec::new();

    let mut invalid_data = Vec::new();
    invalid_data.extend_from_slice(&4u32.to_be_bytes());
    invalid_data.extend_from_slice(&[0xFF, 0xFF, 0xFF, 0xFF]);

    let mut cursor = &invalid_data[..];
    let result = read_frame(&mut codec, &mut cursor);

    assert!(matches!(result, Err(ProtocolError::Serialization(_))));
}

#[test]
fn test_empty_stream() {
    let mut codec = FrameCodec::new();
    let empty: Vec<u8> = Vec::new();
    let mut cursor = &empty[..];

    let result = read_frame(&mut codec, &mut cursor).unwrap();
    assert!(result.is_none());
}

#[test]
fn test_codec_roundtrip_properties() {
    let cases: Vec<(u32, u32, Vec<u8>)> = vec![
        (0, 0, vec![]),
        (1, u32::MAX, vec![0xaa; 999]),
        (u32::MAX, 1, vec![0x00; 256]),
        (77, 78, (0..=255u8).collect()),
    ];
    for (stream_id, sequence, payload) in cases {
        let codec = FrameCodec::new();
        let frame = Frame::data(stream_id, sequence, payload);
        let encoded = codec.encode_frame(&frame).unwrap();
        let mut codec2 = FrameCodec::new();
        let mut cursor = &encoded[..];
        let decoded = read_frame(&mut codec2, &mut cursor).unwrap().unwrap();
        assert_eq!(frame.stream_id, decoded.stream_id);
        assert_eq!(frame.sequence, decoded.sequence);
        assert_eq!(frame.flags, decoded.flags);
        assert_eq!(frame.payload, decoded.payload);
    }
}

#[test]
fn default_limit_is_sixteen_mebibytes() {
    assert_eq!(MAX_FRAME_SIZE, 16 * 1024 * 1024);
    assert_eq!(FrameCodec::new().max_frame_size(), 16 * 1024 * 1024);
    assert_eq!(FrameCodec::with_max_frame_size(9).max_frame_size(), 9);
}

#[test]
fn length_prefix_is_big_endian() {
    let codec = FrameCodec::new();
    let frame = Frame::data(1, 42, b"hi".to_vec());
    let encoded = codec.encode_frame(&frame).unwrap();
    assert_eq!(
        encoded,
        vec![0, 0, 0, 8, 0x94, 0x01, 0x2a, 0x00, 0xc4, 0x02, b'h', b'i']
    );
    let frame = Frame::data(1, 42, vec![5u8; 300]);
    let encoded = codec.encode_frame(&frame).unwrap();
    assert_eq!(&encoded[..4], &[0, 0, 0x01, 0x33]);
    assert_eq!(encoded.len(), 4 + 0x133);
}

#[test]
fn too_large_reports_size_and_limit_at_encode_time() {
    let codec = FrameCodec::with_max_frame_size(100);
    let frame = Frame::data(1, 1, vec![0u8; 200]);
    match codec.encode_frame(&frame) {
        Err(ProtocolError::FrameTooLarge { size, max }) => {
            assert_eq!(size, 1 + 1 + 1 + 1 + 2 + 200);
            assert_eq!(max, 100);
        }
        other => panic!("expected FrameTooLarge, got {:?}", other),
    }
    let frame = Frame::data(1, 1, vec![0u8; 94]);
    assert_eq!(codec.encode_frame(&frame).unwrap().len(), 4 + 100);
    let frame = Frame::data(1, 1, vec![0u8; 95]);
    assert!(matches!(
        codec.encode_frame(&frame),
        Err(ProtocolError::FrameTooLarge { size: 101, max: 100 })
    ));
}

#[test]
fn too_large_is_refused_at_decode_time_and_nothing_is_consumed() {
    let mut codec = FrameCodec::with_max_frame_size(100);
    codec.feed(&[0, 0, 0, 101, 0x94]);
    assert!(matches!(
        codec.try_decode_frame(),
        Err(ProtocolError::FrameTooLarge { size: 101, max: 100 })
    ));
    assert_eq!(codec.buffer_size(), 5);
    codec.clear_buffer();
    assert_eq!(codec.buffer_size(), 0);
}

#[test]
fn zero_length_frame_is_malformed() {
    let mut codec = FrameCodec::new();
    codec.feed(&[0, 0, 0, 0, 9, 9]);
    assert!(matches!(
        codec.try_decode_frame(),
        Err(ProtocolError::Serialization(_))
    ));
    assert_eq!(codec.buffer_size(), 2);
}

#[test]
fn end_of_input_inside_a_frame_is_an_error() {
    let mut codec = FrameCodec::new();
    assert!(codec.end_of_input().is_ok());
    codec.feed(&[0, 0]);
    assert!(matches!(codec.try_decode_frame(), Ok(None)));
    assert!(matches!(
        codec.end_of_input(),
        Err(ProtocolError::InvalidFrame)
    ));
    let encoded = FrameCodec::new()
        .encode_frame(&Frame::data(1, 0, b"abc".to_vec()))
        .unwrap();
    let mut codec = FrameCodec::new();
    let mut cursor = &encoded[..encoded.len() - 1];
    assert!(matches!(
        read_frame(&mut codec, &mut cursor),
        Err(ProtocolError::InvalidFrame)
    ));
}

#[test]
fn default_values_are_the_new_ones() {
    let codec = FrameCodec::default();
    assert_eq!(codec.max_frame_size(), MAX_FRAME_SIZE);
    assert_eq!(codec.buffer_size(), 0);
    let mut multiplexer = mitoxide::StreamMultiplexer::default();
    assert_eq!(multiplexer.stream_count(), 0);
    assert_eq!(multiplexer.create_stream(None).unwrap().stream_id(), 1);
    assert!(mitoxide::Bootstrap::default().platform_info().is_none());
    assert!(mitoxide::WasmContext::default().env().is_empty());
}
