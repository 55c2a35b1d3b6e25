use mitoxide::proto::stream::StreamInfo;
use mitoxide::{
    FlowControlConfig, FlowControlState, Frame, ProtocolError, StreamMultiplexer, StreamState,
};

#[test]
fn test_stream_creation() {
    let mut multiplexer = StreamMultiplexer::new();
    let stream = multiplexer.create_stream(None).unwrap();

    assert_eq!(stream.stream_id(), 1);
    assert_eq!(stream.state(), StreamState::Open);
    assert_eq!(multiplexer.stream_count(), 1);
}

#[test]
fn test_multiple_streams() {
    let mut multiplexer = StreamMultiplexer::new();

    let stream1 = multiplexer.create_stream(None).unwrap();
    let stream2 = multiplexer.create_stream(None).unwrap();
    let stream3 = multiplexer.create_stream(None).unwrap();

    assert_eq!(stream1.stream_id(), 1);
    assert_eq!(stream2.stream_id(), 2);
    assert_eq!(stream3.stream_id(), 3);
    assert_eq!(multiplexer.stream_count(), 3);
}

#[test]
fn test_frame_routing() {
    let mut multiplexer = StreamMultiplexer::new();
    let mut stream = multiplexer.create_stream(None).unwrap();
    let stream_id = stream.stream_id();

    let frame = Frame::data(stream_id, 0, b"test data".to_vec());
    multiplexer.route_frame(frame.clone()).unwrap();

    let received = stream.recv_frame(&mut multiplexer).unwrap();

    assert_eq!(received.stream_id, frame.stream_id);
    assert_eq!(received.payload, frame.payload);
}

#[test]
fn test_stream_send_receive() {
    let mut multiplexer = StreamMultiplexer::new();
    let mut stream1 = multiplexer.create_stream(None).unwrap();
    let _stream2 = multiplexer.create_stream(None).unwrap();

    let payload = b"hello world".to_vec();
    stream1.send_data(&mut multiplexer, payload.clone()).unwrap();

    let outbound = multiplexer.take_outbound();
    assert_eq!(outbound.len(), 1);
    assert_eq!(outbound[0].stream_id, 1);
    assert_eq!(outbound[0].sequence, 0);
    assert_eq!(outbound[0].payload, payload);
    assert!(multiplexer.take_outbound().is_empty());
}

#[test]
fn test_stream_close() {
    let mut multiplexer = StreamMultiplexer::new();
    let mut stream = multiplexer.create_stream(None).unwrap();
    let _stream_id = stream.stream_id();

    assert_eq!(multiplexer.stream_count(), 1);

    stream.close(&mut multiplexer).unwrap();

    assert_eq!(stream.state(), StreamState::Closed);
    assert_eq!(multiplexer.stream_count(), 0);
}

#[test]
fn test_invalid_stream_id() {
    let mut multiplexer = StreamMultiplexer::new();

    let frame = Frame::data(999, 0, b"test".to_vec());
    let result = multiplexer.route_frame(frame);

    assert!(matches!(result, Err(ProtocolError::InvalidStreamId(999))));
}

#[test]
fn test_sequence_number_validation() {
    let mut multiplexer = StreamMultiplexer::new();
    let stream = multiplexer.create_stream(None).unwrap();
    let stream_id = stream.stream_id();

    let frame = Frame::data(stream_id, 5, b"test".to_vec());
    let result = multiplexer.route_frame(frame);

    assert!(matches!(result, Err(ProtocolError::InvalidFrame)));
}

#[test]
fn test_end_stream_handling() {
    let mut multiplexer = StreamMultiplexer::new();
    let stream = multiplexer.create_stream(None).unwrap();
    let stream_id = stream.stream_id();

    let frame = Frame::end_stream(stream_id, 0);
    multiplexer.route_frame(frame).unwrap();

    assert_eq!(multiplexer.stream_state(stream_id), Some(StreamState::Closed));
}

#[test]
fn test_flow_control_basic() {
    let config = FlowControlConfig {
        initial_window_size: 1000,
        max_window_size: 2000,
        connection_window_size: 5000,
    };
    let mut multiplexer = StreamMultiplexer::with_config(config);
    let mut stream = multiplexer.create_stream(None).unwrap();
    let stream_id = stream.stream_id();

    assert!(multiplexer.can_send_data(stream_id, 500).unwrap());

    let payload = vec![0u8; 500];
    stream.send_data(&mut multiplexer, payload).unwrap();

    assert!(multiplexer.can_send_data(stream_id, 500).unwrap());

    assert!(!multiplexer.can_send_data(stream_id, 600).unwrap());
}

#[test]
fn test_flow_control_violation() {
    let config = FlowControlConfig {
        initial_window_size: 100,
        max_window_size: 200,
        connection_window_size: 500,
    };
    let mut multiplexer = StreamMultiplexer::with_config(config);
    let mut stream = multiplexer.create_stream(None).unwrap();

    let large_payload = vec![0u8; 200];
    let result = stream.send_data(&mut multiplexer, large_payload);

    assert!(matches!(result, Err(ProtocolError::FlowControlViolation)));
    // no frame was emitted and no sequence number was used
    assert!(multiplexer.take_outbound().is_empty());
    stream.send_data(&mut multiplexer, vec![0u8; 100]).unwrap();
    assert_eq!(multiplexer.take_outbound()[0].sequence, 0);
}

#[test]
fn test_window_update() {
    let config = FlowControlConfig {
        initial_window_size: 100,
        max_window_size: 200,
        connection_window_size: 500,
    };
    let mut multiplexer = StreamMultiplexer::with_config(config);
    let mut stream = multiplexer.create_stream(None).unwrap();
    let stream_id = stream.stream_id();

    let payload = vec![0u8; 100];
    stream.send_data(&mut multiplexer, payload).unwrap();

    assert!(!multiplexer.can_send_data(stream_id, 50).unwrap());

    multiplexer.update_window(stream_id, 50).unwrap();

    assert!(multiplexer.can_send_data(stream_id, 50).unwrap());
}

#[test]
fn test_receive_flow_control() {
    let mut multiplexer = StreamMultiplexer::new();
    let stream = multiplexer.create_stream(None).unwrap();
    let stream_id = stream.stream_id();

    multiplexer.process_received_data(stream_id, 1000).unwrap();

    multiplexer.ack_processed_data(stream_id, 500).unwrap();

    multiplexer.process_received_data(stream_id, 500).unwrap();
}

#[test]
fn test_stream_id_generation_properties() {
    for num_streams in [1usize, 2, 17, 99] {
        let mut multiplexer = StreamMultiplexer::new();
        let mut stream_ids = Vec::new();
        for _ in 0..num_streams {
            let stream = multiplexer.create_stream(None).unwrap();
            stream_ids.push(stream.stream_id());
        }
        stream_ids.sort();
        stream_ids.dedup();
        assert_eq!(stream_ids.len(), num_streams);
        for (i, &stream_id) in stream_ids.iter().enumerate() {
            assert_eq!(stream_id, (i + 1) as u32);
        }
    }
}

#[test]
fn test_flow_control_invariants() {
    let initial_window = 1000u32;
    let data_sizes = [400u32, 400, 300, 200, 1, 999, 199];
    let config = FlowControlConfig {
        initial_window_size: initial_window,
        max_window_size: initial_window * 2,
        connection_window_size: initial_window * 5,
    };
    let mut multiplexer = StreamMultiplexer::with_config(config);
    let mut stream = multiplexer.create_stream(None).unwrap();
    let stream_id = stream.stream_id();
    let mut total_sent = 0u32;
    for &size in &data_sizes {
        let can_send = multiplexer.can_send_data(stream_id, size).unwrap();
        if can_send && total_sent + size <= initial_window {
            stream.send_data(&mut multiplexer, vec![0u8; size as usize]).unwrap();
            total_sent += size;
        } else {
            let result = stream.send_data(&mut multiplexer, vec![0u8; size as usize]);
            assert!(result.is_err());
        }
    }
    assert!(total_sent <= initial_window);
    assert_eq!(total_sent, 1000);
}

#[test]
fn test_concurrent_stream_operations() {
    let mut multiplexer = StreamMultiplexer::new();
    let mut streams = Vec::new();
    for _ in 0..7 {
        streams.push(multiplexer.create_stream(None).unwrap());
    }
    assert_eq!(multiplexer.stream_count(), 7);
    for stream in &mut streams {
        for i in 0..5 {
            let _ = stream.send_data(&mut multiplexer, format!("data-{}", i).into_bytes());
        }
    }
    for stream in &mut streams {
        stream.close(&mut multiplexer).unwrap();
    }
    assert_eq!(multiplexer.stream_count(), 0);
}

#[test]
fn test_sequence_number_properties() {
    for num_frames in [1usize, 5, 49] {
        let mut multiplexer = StreamMultiplexer::new();
        let stream = multiplexer.create_stream(None).unwrap();
        let stream_id = stream.stream_id();
        for i in 0..num_frames {
            let frame = Frame::data(stream_id, i as u32, b"test".to_vec());
            multiplexer.route_frame(frame).unwrap();
        }
        let wrong_frame = Frame::data(stream_id, (num_frames + 5) as u32, b"wrong".to_vec());
        assert!(multiplexer.route_frame(wrong_frame).is_err());
    }
}

#[test]
fn test_window_update_properties() {
    let initial_window = 500u32;
    let config = FlowControlConfig {
        initial_window_size: initial_window,
        max_window_size: initial_window * 10,
        connection_window_size: initial_window * 10,
    };
    let mut multiplexer = StreamMultiplexer::with_config(config);
    let mut stream = multiplexer.create_stream(None).unwrap();
    let stream_id = stream.stream_id();
    stream.send_data(&mut multiplexer, vec![0u8; initial_window as usize]).unwrap();
    assert!(!multiplexer.can_send_data(stream_id, 1).unwrap());
    for update in [1u32, 499, 250] {
        multiplexer.update_window(stream_id, update).unwrap();
        assert!(multiplexer.can_send_data(stream_id, 1).unwrap());
    }
}

#[test]
fn flow_control_defaults() {
    let config = FlowControlConfig::default();
    assert_eq!(config.initial_window_size, 64 * 1024);
    assert_eq!(config.max_window_size, 1024 * 1024);
    assert_eq!(config.connection_window_size, 1024 * 1024);
}

#[test]
fn flow_control_state_counts_exactly() {
    let mut state = FlowControlState::new(1000);
    assert_eq!(
        state,
        FlowControlState {
            send_window: 1000,
            recv_window: 1000,
            initial_window_size: 1000,
            bytes_in_flight: 0,
            bytes_buffered: 0,
        }
    );
    assert!(state.can_send(1000));
    assert!(!state.can_send(1001));
    state.consume_send_credits(400).unwrap();
    assert_eq!((state.send_window, state.bytes_in_flight), (600, 400));
    assert!(matches!(
        state.consume_send_credits(601),
        Err(ProtocolError::FlowControlViolation)
    ));
    assert_eq!((state.send_window, state.bytes_in_flight), (600, 400));
    // a window update gives credits back, and never takes in-flight below zero
    state.update_send_window(500);
    assert_eq!((state.send_window, state.bytes_in_flight), (1100, 0));
    // in flight is bounded by the initial window even if the send window is larger
    state.consume_send_credits(1000).unwrap();
    assert!(!state.can_send(1));
    assert_eq!((state.send_window, state.bytes_in_flight), (100, 1000));

    state.consume_recv_credits(300).unwrap();
    assert_eq!((state.recv_window, state.bytes_buffered), (700, 300));
    assert!(matches!(
        state.consume_recv_credits(701),
        Err(ProtocolError::FlowControlViolation)
    ));
    state.add_recv_credits(500);
    assert_eq!((state.recv_window, state.bytes_buffered), (1200, 0));
    assert!(FlowControlState::new(u32::MAX).can_send(u32::MAX));
}

#[test]
fn frames_come_out_in_order_on_each_stream() {
    let mut multiplexer = StreamMultiplexer::new();
    let mut a = multiplexer.create_stream(None).unwrap();
    let mut b = multiplexer.create_stream(Some(7)).unwrap();
    let mut c = multiplexer.create_stream(None).unwrap();
    // interleave the three streams
    for sequence in 0..5u32 {
        for id in [c.stream_id(), a.stream_id(), b.stream_id()] {
            multiplexer
                .route_frame(Frame::data(id, sequence, vec![id as u8, sequence as u8]))
                .unwrap();
        }
    }
    for handle in [&mut a, &mut b, &mut c] {
        for sequence in 0..5u32 {
            let frame = handle.recv_frame(&mut multiplexer).unwrap();
            assert_eq!(frame.stream_id, handle.stream_id());
            assert_eq!(frame.sequence, sequence);
            assert_eq!(frame.payload, vec![handle.stream_id() as u8, sequence as u8]);
        }
        assert!(handle.recv_frame(&mut multiplexer).is_none());
    }
}

#[test]
fn a_frame_out_of_order_tears_its_stream_down() {
    let mut multiplexer = StreamMultiplexer::new();
    let mut a = multiplexer.create_stream(None).unwrap();
    let mut b = multiplexer.create_stream(None).unwrap();
    let id = a.stream_id();
    multiplexer.route_frame(Frame::data(id, 0, vec![0])).unwrap();
    multiplexer.route_frame(Frame::data(b.stream_id(), 0, vec![9])).unwrap();
    // sequence 2 before 1
    assert!(matches!(
        multiplexer.route_frame(Frame::data(id, 2, vec![2])),
        Err(ProtocolError::InvalidFrame)
    ));
    // the stream is gone, with what waited on it
    assert_eq!(multiplexer.stream_state(id), None);
    assert_eq!(multiplexer.stream_count(), 1);
    assert!(a.recv_frame(&mut multiplexer).is_none());
    // the frame with the expected number is no longer delivered
    assert!(matches!(
        multiplexer.route_frame(Frame::data(id, 1, vec![1])),
        Err(ProtocolError::InvalidStreamId(_))
    ));
    assert!(matches!(
        a.send_data(&mut multiplexer, vec![1]),
        Err(ProtocolError::InvalidStreamId(_))
    ));
    // the other stream is as it was
    assert_eq!(multiplexer.stream_state(b.stream_id()), Some(StreamState::Open));
    multiplexer.route_frame(Frame::data(b.stream_id(), 1, vec![8])).unwrap();
    assert_eq!(b.recv_frame(&mut multiplexer).unwrap().payload, vec![9]);
    assert_eq!(b.recv_frame(&mut multiplexer).unwrap().payload, vec![8]);
}

#[test]
fn a_repeated_frame_tears_its_stream_down() {
    let mut multiplexer = StreamMultiplexer::new();
    let a = multiplexer.create_stream(None).unwrap();
    let id = a.stream_id();
    multiplexer.route_frame(Frame::data(id, 0, vec![0])).unwrap();
    assert!(matches!(
        multiplexer.route_frame(Frame::data(id, 0, vec![0])),
        Err(ProtocolError::InvalidFrame)
    ));
    assert_eq!(multiplexer.stream_state(id), None);
    // ids are not given out again
    assert_eq!(multiplexer.create_stream(None).unwrap().stream_id(), 2);
}

#[test]
fn a_stream_without_consumer_is_removed_by_the_next_frame() {
    let mut multiplexer = StreamMultiplexer::new();
    let a = multiplexer.create_stream(None).unwrap();
    let id = a.stream_id();
    multiplexer.drop_receiver(id);
    assert_eq!(multiplexer.stream_count(), 1);
    multiplexer.route_frame(Frame::data(id, 0, vec![])).unwrap();
    assert_eq!(multiplexer.stream_count(), 0);
    // ids are not given out again
    assert_eq!(multiplexer.create_stream(None).unwrap().stream_id(), 2);
}

#[test]
fn sending_moves_through_the_states() {
    let mut multiplexer = StreamMultiplexer::new();
    let mut a = multiplexer.create_stream(None).unwrap();
    a.send_data(&mut multiplexer, b"x".to_vec()).unwrap();
    a.send_end_stream(&mut multiplexer).unwrap();
    assert_eq!(a.state(), StreamState::HalfClosed);
    // the multiplexer sees the stream closed once the peer ends it
    multiplexer.route_frame(Frame::end_stream(a.stream_id(), 0)).unwrap();
    assert_eq!(multiplexer.stream_state(a.stream_id()), Some(StreamState::Closed));
    a.close(&mut multiplexer).unwrap();
    assert_eq!(a.state(), StreamState::Closed);
    assert!(matches!(
        a.send_data(&mut multiplexer, b"y".to_vec()),
        Err(ProtocolError::StreamClosed)
    ));
    assert!(matches!(
        a.send_end_stream(&mut multiplexer),
        Err(ProtocolError::StreamClosed)
    ));
    assert!(a.close(&mut multiplexer).is_ok());
    let frames = multiplexer.take_outbound();
    let summary: Vec<(u32, u8, usize)> =
        frames.iter().map(|f| (f.sequence, f.flags.0, f.payload.len())).collect();
    assert_eq!(summary, vec![(0, 0, 1), (1, 1, 0), (2, 1, 0)]);
}

#[test]
fn unknown_streams_are_reported() {
    let mut multiplexer = StreamMultiplexer::new();
    assert!(matches!(
        multiplexer.can_send_data(3, 1),
        Err(ProtocolError::InvalidStreamId(3))
    ));
    assert!(matches!(
        multiplexer.update_window(3, 1),
        Err(ProtocolError::InvalidStreamId(3))
    ));
    assert!(matches!(
        multiplexer.process_received_data(3, 1),
        Err(ProtocolError::InvalidStreamId(3))
    ));
    assert!(matches!(
        multiplexer.ack_processed_data(3, 1),
        Err(ProtocolError::InvalidStreamId(3))
    ));
    assert!(matches!(
        multiplexer.close_stream(3),
        Err(ProtocolError::InvalidStreamId(3))
    ));
    assert_eq!(multiplexer.stream_state(3), None);
    assert_eq!(multiplexer.flow_control(3), None);
    let mut handle = multiplexer.create_stream(None).unwrap();
    multiplexer.close_stream(1).unwrap();
    assert!(matches!(
        handle.send_data(&mut multiplexer, vec![]),
        Err(ProtocolError::InvalidStreamId(1))
    ));
    assert!(multiplexer.send_frame(Frame::data(9, 9, vec![])).is_ok());
    assert_eq!(multiplexer.take_outbound().len(), 1);
}

#[test]
fn receiving_more_than_the_window_is_a_violation() {
    let config = FlowControlConfig {
        initial_window_size: 100,
        max_window_size: 200,
        connection_window_size: 500,
    };
    let mut multiplexer = StreamMultiplexer::with_config(config);
    let stream = multiplexer.create_stream(None).unwrap();
    assert!(matches!(
        multiplexer.process_received_data(stream.stream_id(), 101),
        Err(ProtocolError::FlowControlViolation)
    ));
    multiplexer.process_received_data(stream.stream_id(), 100).unwrap();
    assert_eq!(
        multiplexer.flow_control(stream.stream_id()),
        Some(FlowControlState {
            send_window: 100,
            recv_window: 0,
            initial_window_size: 100,
            bytes_in_flight: 0,
            bytes_buffered: 100,
        })
    );
    assert!(matches!(
        multiplexer.process_received_data(stream.stream_id(), 1),
        Err(ProtocolError::FlowControlViolation)
    ));
}

#[test]
fn stream_records_can_be_built() {
    let info = StreamInfo {
        state: StreamState::Open,
        queue: vec![],
        receiver_open: true,
        consumed: 0,
        next_sequence: 0,
        request_id: None,
        flow_control: FlowControlState::new(1),
    };
    assert_eq!(info.state, StreamState::Open);
}
