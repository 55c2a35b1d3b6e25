//! Stream multiplexing: per-stream state, sequence order and flow control.

use vstd::prelude::*;
use std::collections::HashMap;
use crate::proto::error::ProtocolError;
use crate::proto::frame::{Frame, FrameFlags, FLAG_END_STREAM, FLAG_NONE};
use crate::proto::message::RequestId;

verus! {

broadcast use vstd::std_specs::hash::group_hash_axioms;

/// Flow control configuration.
#[derive(Debug, Clone, Copy, PartialEq, Eq, Structural)]
pub struct FlowControlConfig {
    /// Initial window of a new stream.
    pub initial_window_size: u32,
    /// Largest window.
    pub max_window_size: u32,
    /// Window of the whole connection.
    pub connection_window_size: u32,
}

impl Default for FlowControlConfig {
    /// 64 KiB per stream, 1 MiB at most, 1 MiB for the connection.
    fn default() -> (c: FlowControlConfig)
        ensures
            c == (FlowControlConfig {
                initial_window_size: 65536,
                max_window_size: 1048576,
                connection_window_size: 1048576,
            }),
    {
        FlowControlConfig {
            initial_window_size: 65536,
            max_window_size: 1048576,
            connection_window_size: 1048576,
        }
    }
}

/// Flow control state of one stream.
#[derive(Debug, Clone, Copy, PartialEq, Eq, Structural)]
pub struct FlowControlState {
    /// Credits available to send.
    pub send_window: u32,
    /// Credits available to receive.
    pub recv_window: u32,
    /// Initial window size.
    pub initial_window_size: u32,
    /// Bytes sent and not yet acknowledged.
    pub bytes_in_flight: u32,
    /// Bytes received and not yet processed.
    pub bytes_buffered: u32,
}

impl FlowControlState {
    /// The state of a new stream: both windows full, nothing under way.
    pub fn new(initial_window_size: u32) -> (s: FlowControlState)
        ensures
            s == (FlowControlState {
                send_window: initial_window_size,
                recv_window: initial_window_size,
                initial_window_size,
                bytes_in_flight: 0,
                bytes_buffered: 0,
            }),
    {
        FlowControlState {
            send_window: initial_window_size,
            recv_window: initial_window_size,
            initial_window_size,
            bytes_in_flight: 0,
            bytes_buffered: 0,
        }
    }

    /// Sending `size` bytes is allowed: the send window covers them, and
    /// with them no more than the initial window is in flight.
    pub open spec fn spec_can_send(&self, size: u32) -> bool {
        self.send_window >= size && self.bytes_in_flight + size <= self.initial_window_size
    }

    /// Whether `size` bytes may be sent.
    #[verifier::when_used_as_spec(spec_can_send)]
    pub fn can_send(&self, size: u32) -> (r: bool)
        ensures
            r == self.spec_can_send(size),
    {
        self.send_window >= size && size <= self.initial_window_size && self.bytes_in_flight
            <= self.initial_window_size - size
    }

    /// The state after `size` bytes were sent.
    pub open spec fn after_send(self, size: u32) -> FlowControlState {
        FlowControlState {
            send_window: (self.send_window - size) as u32,
            bytes_in_flight: (self.bytes_in_flight + size) as u32,
            ..self
        }
    }

    /// Takes the credits for sending `size` bytes, or refuses and changes nothing.
    pub fn consume_send_credits(&mut self, size: u32) -> (r: Result<(), ProtocolError>)
        ensures
            old(self).spec_can_send(size) ==> r is Ok && *final(self) == old(self).after_send(size),
            !old(self).spec_can_send(size) ==> (r matches Err(ProtocolError::FlowControlViolation))
                && *final(self) == *old(self),
    {
        if !self.can_send(size) {
            return Err(ProtocolError::FlowControlViolation);
        }
        self.send_window = self.send_window - size;
        self.bytes_in_flight = self.bytes_in_flight + size;
        Ok(())
    }

    /// The state after `size` processed bytes were acknowledged.
    pub open spec fn after_ack(self, size: u32) -> FlowControlState {
        FlowControlState {
            recv_window: (self.recv_window + size) as u32,
            bytes_buffered: if self.bytes_buffered >= size {
                (self.bytes_buffered - size) as u32
            } else {
                0
            },
            ..self
        }
    }

    /// Gives back receive credits for `size` processed bytes.
    pub fn add_recv_credits(&mut self, size: u32)
        requires
            old(self).recv_window + size <= u32::MAX,
        ensures
            *final(self) == old(self).after_ack(size),
    {
        self.recv_window = self.recv_window + size;
        self.bytes_buffered = if self.bytes_buffered >= size {
            self.bytes_buffered - size
        } else {
            0
        };
    }

    /// The state after `size` bytes were received.
    pub open spec fn after_receive(self, size: u32) -> FlowControlState {
        FlowControlState {
            recv_window: (self.recv_window - size) as u32,
            bytes_buffered: (self.bytes_buffered + size) as u32,
            ..self
        }
    }

    /// Takes the credits for `size` received bytes, or refuses and changes nothing.
    pub fn consume_recv_credits(&mut self, size: u32) -> (r: Result<(), ProtocolError>)
        requires
            old(self).recv_window >= size ==> old(self).bytes_buffered + size <= u32::MAX,
        ensures
            old(self).recv_window >= size ==> r is Ok && *final(self) == old(self).after_receive(
                size,
            ),
            old(self).recv_window < size ==> (r matches Err(ProtocolError::FlowControlViolation))
                && *final(self) == *old(self),
    {
        if self.recv_window < size {
            return Err(ProtocolError::FlowControlViolation);
        }
        self.recv_window = self.recv_window - size;
        self.bytes_buffered = self.bytes_buffered + size;
        Ok(())
    }

    /// The state after the peer granted `delta` more send credits.
    pub open spec fn after_window_update(self, delta: u32) -> FlowControlState {
        FlowControlState {
            send_window: (self.send_window + delta) as u32,
            bytes_in_flight: if self.bytes_in_flight >= delta {
                (self.bytes_in_flight - delta) as u32
            } else {
                0
            },
            ..self
        }
    }

    /// Applies a window update from the peer.
    pub fn update_send_window(&mut self, delta: u32)
        requires
            old(self).send_window + delta <= u32::MAX,
        ensures
            *final(self) == old(self).after_window_update(delta),
    {
        self.send_window = self.send_window + delta;
        self.bytes_in_flight = if self.bytes_in_flight >= delta {
            self.bytes_in_flight - delta
        } else {
            0
        };
    }
}

/// State of a stream.
#[derive(Debug, Clone, Copy, PartialEq, Eq, Structural)]
pub enum StreamState {
    /// Open in both directions.
    Open,
    /// The local end has sent its last frame.
    HalfClosed,
    /// Closed.
    Closed,
}

/// What the multiplexer knows of one stream.
#[derive(Debug)]
pub struct StreamInfo {
    /// State of the stream.
    pub state: StreamState,
    /// Frames delivered and not yet taken by the consumer, oldest first.
    pub queue: Vec<Frame>,
    /// Whether the consumer still listens.
    pub receiver_open: bool,
    /// Number of frames that the consumer has taken.
    pub consumed: u64,
    /// Sequence number that the next inbound frame must carry.
    pub next_sequence: u64,
    /// The request that the stream serves, if any.
    pub request_id: Option<RequestId>,
    /// Flow control state.
    pub flow_control: FlowControlState,
}

/// The frames in a stream's queue are its own and in order without gap or
/// repetition: the frame at position `i` carries the sequence number
/// `consumed + i`, and what was consumed and what waits add up to what arrived.
pub open spec fn stream_in_order(id: u32, info: StreamInfo) -> bool {
    &&& info.consumed + info.queue@.len() == info.next_sequence
    &&& info.next_sequence <= 0x1_0000_0000
    &&& forall|i: int|
        0 <= i < info.queue@.len() ==> (#[trigger] info.queue@[i]).stream_id == id
            && info.queue@[i].sequence == info.consumed + i
}

/// The record of a stream that was just created.
pub open spec fn new_stream_info(info: StreamInfo, request_id: Option<RequestId>, window: u32)
    -> bool {
    &&& info.state == StreamState::Open
    &&& info.queue@ == Seq::<Frame>::empty()
    &&& info.receiver_open
    &&& info.consumed == 0
    &&& info.next_sequence == 0
    &&& info.request_id == request_id
    &&& info.flow_control == (FlowControlState {
        send_window: window,
        recv_window: window,
        initial_window_size: window,
        bytes_in_flight: 0,
        bytes_buffered: 0,
    })
}

/// The record of a stream after `frame` was delivered to it.
pub open spec fn after_delivery(before: StreamInfo, after: StreamInfo, frame: Frame) -> bool {
    &&& after.state == if frame.spec_is_end_stream() {
        StreamState::Closed
    } else {
        before.state
    }
    &&& after.queue@ == before.queue@.push(frame)
    &&& after.receiver_open == before.receiver_open
    &&& after.consumed == before.consumed
    &&& after.next_sequence == before.next_sequence + 1
    &&& after.request_id == before.request_id
    &&& after.flow_control == before.flow_control
}

/// The record of a stream whose flow control state became `flow`.
pub open spec fn with_flow(before: StreamInfo, after: StreamInfo, flow: FlowControlState) -> bool {
    &&& after.state == before.state
    &&& after.queue@ == before.queue@
    &&& after.receiver_open == before.receiver_open
    &&& after.consumed == before.consumed
    &&& after.next_sequence == before.next_sequence
    &&& after.request_id == before.request_id
    &&& after.flow_control == flow
}

/// Owns the streams of one connection.
pub struct StreamMultiplexer {
    next_stream_id: u32,
    streams: HashMap<u32, StreamInfo>,
    outbound: Vec<Frame>,
    flow_control_config: FlowControlConfig,
}

/// A caller's handle on one stream. It names the stream; the multiplexer owns it.
#[derive(Debug)]
pub struct StreamHandle {
    stream_id: u32,
    next_sequence: u64,
    state: StreamState,
}

impl StreamMultiplexer {
    /// The streams by id.
    pub closed spec fn streams(&self) -> Map<u32, StreamInfo> {
        self.streams@
    }

    /// The frames handed over for sending and not yet taken, oldest first.
    pub closed spec fn outbound(&self) -> Seq<Frame> {
        self.outbound@
    }

    /// The id that the next stream gets; zero when the ids are used up.
    pub closed spec fn next_id(&self) -> u32 {
        self.next_stream_id
    }

    /// The flow control configuration.
    pub closed spec fn config(&self) -> FlowControlConfig {
        self.flow_control_config
    }

    /// Every stream's queue is in order, and every id in use lies below the
    /// next id, so that no id is given out twice.
    pub closed spec fn wf(&self) -> bool {
        forall|id: u32| #[trigger]
            self.streams@.contains_key(id) ==> {
                &&& stream_in_order(id, self.streams@[id])
                &&& id >= 1
                &&& (self.next_stream_id == 0 || id < self.next_stream_id)
            }
    }

    /// On every stream, what was consumed and what waits is what arrived, in
    /// order, without gap or repetition: the frames that wait carry
    /// consecutive sequence numbers, the first of them the number of frames
    /// already consumed, and the stream expects the number behind the last.
    pub proof fn lemma_stream_in_order(&self, id: u32)
        requires
            self.wf(),
            self.streams().contains_key(id),
        ensures
            stream_in_order(id, self.streams()[id]),
            forall|i: int|
                0 <= i < self.streams()[id].queue@.len() - 1 ==> (
                #[trigger] self.streams()[id].queue@[i + 1]).sequence
                    == self.streams()[id].queue@[i].sequence + 1,
            self.streams()[id].queue@.len() > 0 ==> self.streams()[id].queue@[0].sequence
                == self.streams()[id].consumed && self.streams()[id].queue@.last().sequence + 1
                == self.streams()[id].next_sequence,
            id >= 1,
            self.next_id() == 0 || id < self.next_id(),
    {
        let q = self.streams()[id].queue@;
        assert forall|i: int| 0 <= i < q.len() - 1 implies (#[trigger] q[i + 1]).sequence
            == q[i].sequence + 1 by {
            assert(q[i].sequence == self.streams()[id].consumed + i);
        }
        if q.len() > 0 {
            assert(q[0].sequence == self.streams()[id].consumed + 0);
            assert(q[q.len() - 1].sequence == self.streams()[id].consumed + (q.len() - 1));
        }
    }

    /// A multiplexer without streams, with the default configuration.
    pub fn new() -> (m: StreamMultiplexer)
        ensures
            m.wf(),
            m.streams() == Map::<u32, StreamInfo>::empty(),
            m.outbound() == Seq::<Frame>::empty(),
            m.next_id() == 1,
            m.config() == (FlowControlConfig {
                initial_window_size: 65536,
                max_window_size: 1048576,
                connection_window_size: 1048576,
            }),
    {
        StreamMultiplexer::with_config(FlowControlConfig::default())
    }

    /// A multiplexer without streams.
    pub fn with_config(config: FlowControlConfig) -> (m: StreamMultiplexer)
        ensures
            m.wf(),
            m.streams() == Map::<u32, StreamInfo>::empty(),
            m.outbound() == Seq::<Frame>::empty(),
            m.next_id() == 1,
            m.config() == config,
    {
        StreamMultiplexer {
            next_stream_id: 1,
            streams: HashMap::new(),
            outbound: Vec::new(),
            flow_control_config: config,
        }
    }

    /// Creates a stream under the next id. Ids start at 1, grow by one and
    /// are never given out twice; when they are used up, no stream is created.
    pub fn create_stream(&mut self, request_id: Option<RequestId>) -> (r: Result<
        StreamHandle,
        ProtocolError,
    >)
        requires
            old(self).wf(),
        ensures
            final(self).wf(),
            final(self).outbound() == old(self).outbound(),
            final(self).config() == old(self).config(),
            match r {
                Ok(h) => {
                    &&& old(self).next_id() != 0
                    &&& h.id() == old(self).next_id()
                    &&& h.spec_state() == StreamState::Open
                    &&& h.next_sequence() == 0
                    &&& !old(self).streams().contains_key(h.id())
                    &&& final(self).next_id() == (if h.id() == u32::MAX {
                        0u32
                    } else {
                        (h.id() + 1) as u32
                    })
                    &&& final(self).streams().dom() == old(self).streams().dom().insert(h.id())
                    &&& new_stream_info(
                        final(self).streams()[h.id()],
                        request_id,
                        old(self).config().initial_window_size,
                    )
                    &&& forall|id: u32|
                        old(self).streams().contains_key(id) ==> final(self).streams()[id]
                            == old(self).streams()[id]
                },
                Err(e) => {
                    &&& old(self).next_id() == 0
                    &&& e == ProtocolError::InvalidStreamId(0)
                    &&& final(self).streams() == old(self).streams()
                    &&& final(self).next_id() == 0
                },
            },
    {
        if self.next_stream_id == 0 {
            return Err(ProtocolError::InvalidStreamId(0));
        }
        let stream_id: u32 = self.next_stream_id;
        self.next_stream_id = if stream_id == u32::MAX {
            0
        } else {
            stream_id + 1
        };
        let info = StreamInfo {
            state: StreamState::Open,
            queue: Vec::new(),
            receiver_open: true,
            consumed: 0,
            next_sequence: 0,
            request_id,
            flow_control: FlowControlState::new(self.flow_control_config.initial_window_size),
        };
        let _ = self.streams.insert(stream_id, info);
        assert(self.streams@.dom() =~= old(self).streams@.dom().insert(stream_id));
        Ok(StreamHandle { stream_id, next_sequence: 0, state: StreamState::Open })
    }

    /// Routes an inbound frame to its stream.
    ///
    /// A frame for an unknown stream is refused and nothing changes. A frame
    /// with another sequence number than its stream expects next is refused
    /// and is fatal for that stream: the stream is torn down, with what still
    /// waited on it, and the other streams stay as they are. Otherwise the
    /// stream expects the following number, is closed if the frame ends it,
    /// and gets the frame at the end of its queue; a stream whose consumer
    /// has gone is removed instead.
    pub fn route_frame(&mut self, frame: Frame) -> (r: Result<(), ProtocolError>)
        requires
            old(self).wf(),
        ensures
            final(self).wf(),
            final(self).outbound() == old(self).outbound(),
            final(self).next_id() == old(self).next_id(),
            final(self).config() == old(self).config(),
            !old(self).streams().contains_key(frame.stream_id) ==> r == Err::<(), ProtocolError>(
                ProtocolError::InvalidStreamId(frame.stream_id),
            ) && final(self).streams() == old(self).streams(),
            old(self).streams().contains_key(frame.stream_id)
                && frame.sequence != old(self).streams()[frame.stream_id].next_sequence
                ==> (r matches Err(ProtocolError::InvalidFrame)) && final(self).streams()
                == old(self).streams().remove(frame.stream_id),
            old(self).streams().contains_key(frame.stream_id) && frame.sequence
                == old(self).streams()[frame.stream_id].next_sequence ==> r is Ok
                && (if old(self).streams()[frame.stream_id].receiver_open {
                &&& final(self).streams().dom() == old(self).streams().dom()
                &&& after_delivery(
                    old(self).streams()[frame.stream_id],
                    final(self).streams()[frame.stream_id],
                    frame,
                )
                &&& forall|id: u32|
                    id != frame.stream_id && old(self).streams().contains_key(id)
                        ==> final(self).streams()[id] == old(self).streams()[id]
            } else {
                final(self).streams() == old(self).streams().remove(frame.stream_id)
            }),
    {
        let stream_id: u32 = frame.stream_id;
        let expected: u64 = match self.streams.get(&stream_id) {
            Some(info) => info.next_sequence,
            None => { return Err(ProtocolError::InvalidStreamId(stream_id)); },
        };
        let mut info = match self.streams.remove(&stream_id) {
            Some(info) => info,
            None => { return Err(ProtocolError::InvalidStreamId(stream_id)); },
        };
        if frame.sequence as u64 != expected {
            return Err(ProtocolError::InvalidFrame);
        }
        if !info.receiver_open {
            return Ok(());
        }
        let ghost before = info;
        info.next_sequence = info.next_sequence + 1;
        if frame.is_end_stream() {
            info.state = StreamState::Closed;
        }
        info.queue.push(frame);
        proof {
            assert forall|i: int| 0 <= i < info.queue@.len() implies (#[trigger] info.queue@[i]).stream_id
                == stream_id && info.queue@[i].sequence == info.consumed + i by {
                if i < before.queue@.len() {
                    assert(info.queue@[i] == before.queue@[i]);
                }
            }
        }
        let _ = self.streams.insert(stream_id, info);
        assert(self.streams@.dom() =~= old(self).streams@.dom());
        Ok(())
    }

    /// Removes a stream.
    pub fn close_stream(&mut self, stream_id: u32) -> (r: Result<(), ProtocolError>)
        requires
            old(self).wf(),
        ensures
            final(self).wf(),
            final(self).outbound() == old(self).outbound(),
            final(self).next_id() == old(self).next_id(),
            final(self).config() == old(self).config(),
            final(self).streams() == old(self).streams().remove(stream_id),
            old(self).streams().contains_key(stream_id) ==> r is Ok,
            !old(self).streams().contains_key(stream_id) ==> r == Err::<(), ProtocolError>(
                ProtocolError::InvalidStreamId(stream_id),
            ),
    {
        match self.streams.remove(&stream_id) {
            Some(_) => Ok(()),
            None => {
                assert(self.streams@ =~= old(self).streams@.remove(stream_id));
                Err(ProtocolError::InvalidStreamId(stream_id))
            },
        }
    }

    /// Records that the consumer of a stream has gone: the next frame routed
    /// to the stream removes it.
    pub fn drop_receiver(&mut self, stream_id: u32)
        requires
            old(self).wf(),
        ensures
            final(self).wf(),
            final(self).outbound() == old(self).outbound(),
            final(self).next_id() == old(self).next_id(),
            final(self).config() == old(self).config(),
            final(self).streams().dom() == old(self).streams().dom(),
            forall|id: u32|
                id != stream_id && old(self).streams().contains_key(id)
                    ==> final(self).streams()[id] == old(self).streams()[id],
            old(self).streams().contains_key(stream_id) ==> {
                let a = final(self).streams()[stream_id];
                let b = old(self).streams()[stream_id];
                &&& !a.receiver_open
                &&& a.state == b.state
                &&& a.queue@ == b.queue@
                &&& a.consumed == b.consumed
                &&& a.next_sequence == b.next_sequence
                &&& a.request_id == b.request_id
                &&& a.flow_control == b.flow_control
            },
    {
        match self.streams.remove(&stream_id) {
            Some(info) => {
                let mut info = info;
                info.receiver_open = false;
                let _ = self.streams.insert(stream_id, info);
                assert(self.streams@.dom() =~= old(self).streams@.dom());
            },
            None => {
                assert(self.streams@ =~= old(self).streams@);
            },
        }
    }

    /// Number of streams.
    pub fn stream_count(&self) -> (n: usize)
        ensures
            n == self.streams().dom().len(),
    {
        self.streams.len()
    }

    /// State of a stream, if it exists.
    pub fn stream_state(&self, stream_id: u32) -> (r: Option<StreamState>)
        ensures
            r == (if self.streams().contains_key(stream_id) {
                Some(self.streams()[stream_id].state)
            } else {
                None
            }),
    {
        match self.streams.get(&stream_id) {
            Some(info) => Some(info.state),
            None => None,
        }
    }

    /// Flow control state of a stream, if it exists.
    pub fn flow_control(&self, stream_id: u32) -> (r: Option<FlowControlState>)
        ensures
            r == (if self.streams().contains_key(stream_id) {
                Some(self.streams()[stream_id].flow_control)
            } else {
                None
            }),
    {
        match self.streams.get(&stream_id) {
            Some(info) => Some(info.flow_control),
            None => None,
        }
    }

    /// Hands a frame over for sending.
    pub fn send_frame(&mut self, frame: Frame) -> (r: Result<(), ProtocolError>)
        ensures
            r is Ok,
            final(self).outbound() == old(self).outbound().push(frame),
            final(self).streams() == old(self).streams(),
            final(self).next_id() == old(self).next_id(),
            final(self).config() == old(self).config(),
            old(self).wf() ==> final(self).wf(),
    {
        self.outbound.push(frame);
        Ok(())
    }

    /// Takes the frames that wait for sending, oldest first.
    pub fn take_outbound(&mut self) -> (frames: Vec<Frame>)
        ensures
            frames@ == old(self).outbound(),
            final(self).outbound() == Seq::<Frame>::empty(),
            final(self).streams() == old(self).streams(),
            final(self).next_id() == old(self).next_id(),
            final(self).config() == old(self).config(),
            old(self).wf() ==> final(self).wf(),
    {
        let mut frames: Vec<Frame> = Vec::new();
        core::mem::swap(&mut frames, &mut self.outbound);
        frames
    }

    /// Whether a stream may send `size` bytes.
    pub fn can_send_data(&self, stream_id: u32, size: u32) -> (r: Result<bool, ProtocolError>)
        ensures
            r == (if self.streams().contains_key(stream_id) {
                Ok::<bool, ProtocolError>(
                    self.streams()[stream_id].flow_control.spec_can_send(size),
                )
            } else {
                Err::<bool, ProtocolError>(ProtocolError::InvalidStreamId(stream_id))
            }),
    {
        match self.streams.get(&stream_id) {
            Some(info) => Ok(info.flow_control.can_send(size)),
            None => Err(ProtocolError::InvalidStreamId(stream_id)),
        }
    }

    /// The streams are as before, but for the flow control state of one.
    pub open spec fn only_flow_changed(
        &self,
        before: &StreamMultiplexer,
        stream_id: u32,
        flow: FlowControlState,
    ) -> bool {
        &&& self.outbound() == before.outbound()
        &&& self.next_id() == before.next_id()
        &&& self.config() == before.config()
        &&& self.streams().dom() == before.streams().dom()
        &&& with_flow(before.streams()[stream_id], self.streams()[stream_id], flow)
        &&& forall|id: u32|
            id != stream_id && before.streams().contains_key(id) ==> self.streams()[id]
                == before.streams()[id]
    }

    /// Nothing that contracts speak of has changed.
    pub open spec fn unchanged(&self, before: &StreamMultiplexer) -> bool {
        &&& self.outbound() == before.outbound()
        &&& self.next_id() == before.next_id()
        &&& self.config() == before.config()
        &&& self.streams() == before.streams()
    }

    fn set_flow(&mut self, stream_id: u32, info: StreamInfo, flow: FlowControlState)
        requires
            old(self).wf(),
            !old(self).streams().contains_key(stream_id),
            stream_in_order(stream_id, info),
            stream_id >= 1,
            old(self).next_id() == 0 || stream_id < old(self).next_id(),
        ensures
            final(self).wf(),
            final(self).outbound() == old(self).outbound(),
            final(self).next_id() == old(self).next_id(),
            final(self).config() == old(self).config(),
            final(self).streams().dom() == old(self).streams().dom().insert(stream_id),
            with_flow(info, final(self).streams()[stream_id], flow),
            forall|id: u32|
                id != stream_id && old(self).streams().contains_key(id)
                    ==> final(self).streams()[id] == old(self).streams()[id],
    {
        let mut info = info;
        info.flow_control = flow;
        let _ = self.streams.insert(stream_id, info);
        assert(self.streams@.dom() =~= old(self).streams@.dom().insert(stream_id));
    }

    /// Applies a window update from the peer to a stream.
    pub fn update_window(&mut self, stream_id: u32, delta: u32) -> (r: Result<(), ProtocolError>)
        requires
            old(self).wf(),
            old(self).streams().contains_key(stream_id)
                ==> old(self).streams()[stream_id].flow_control.send_window + delta <= u32::MAX,
        ensures
            final(self).wf(),
            old(self).streams().contains_key(stream_id) ==> r is Ok
                && final(self).only_flow_changed(
                old(self),
                stream_id,
                old(self).streams()[stream_id].flow_control.after_window_update(delta),
            ),
            !old(self).streams().contains_key(stream_id) ==> r == Err::<(), ProtocolError>(
                ProtocolError::InvalidStreamId(stream_id),
            ) && final(self).unchanged(old(self)),
    {
        match self.streams.remove(&stream_id) {
            Some(info) => {
                let mut flow = info.flow_control;
                flow.update_send_window(delta);
                self.set_flow(stream_id, info, flow);
                assert(self.streams@.dom() =~= old(self).streams@.dom());
                Ok(())
            },
            None => {
                assert(self.streams@ =~= old(self).streams@);
                Err(ProtocolError::InvalidStreamId(stream_id))
            },
        }
    }

    /// Accounts for `size` bytes received on a stream.
    pub fn process_received_data(&mut self, stream_id: u32, size: u32) -> (r: Result<
        (),
        ProtocolError,
    >)
        requires
            old(self).wf(),
            old(self).streams().contains_key(stream_id)
                && old(self).streams()[stream_id].flow_control.recv_window >= size
                ==> old(self).streams()[stream_id].flow_control.bytes_buffered + size <= u32::MAX,
        ensures
            final(self).wf(),
            old(self).streams().contains_key(stream_id)
                && old(self).streams()[stream_id].flow_control.recv_window >= size ==> r is Ok
                && final(self).only_flow_changed(
                old(self),
                stream_id,
                old(self).streams()[stream_id].flow_control.after_receive(size),
            ),
            old(self).streams().contains_key(stream_id)
                && old(self).streams()[stream_id].flow_control.recv_window < size
                ==> (r matches Err(ProtocolError::FlowControlViolation))
                && final(self).only_flow_changed(
                old(self),
                stream_id,
                old(self).streams()[stream_id].flow_control,
            ),
            !old(self).streams().contains_key(stream_id) ==> r == Err::<(), ProtocolError>(
                ProtocolError::InvalidStreamId(stream_id),
            ) && final(self).unchanged(old(self)),
    {
        match self.streams.remove(&stream_id) {
            Some(info) => {
                let mut flow = info.flow_control;
                let r = flow.consume_recv_credits(size);
                self.set_flow(stream_id, info, flow);
                assert(self.streams@.dom() =~= old(self).streams@.dom());
                r
            },
            None => {
                assert(self.streams@ =~= old(self).streams@);
                Err(ProtocolError::InvalidStreamId(stream_id))
            },
        }
    }

    /// Gives back receive credits for `size` bytes that were processed.
    pub fn ack_processed_data(&mut self, stream_id: u32, size: u32) -> (r: Result<
        (),
        ProtocolError,
    >)
        requires
            old(self).wf(),
            old(self).streams().contains_key(stream_id)
                ==> old(self).streams()[stream_id].flow_control.recv_window + size <= u32::MAX,
        ensures
            final(self).wf(),
            old(self).streams().contains_key(stream_id) ==> r is Ok
                && final(self).only_flow_changed(
                old(self),
                stream_id,
                old(self).streams()[stream_id].flow_control.after_ack(size),
            ),
            !old(self).streams().contains_key(stream_id) ==> r == Err::<(), ProtocolError>(
                ProtocolError::InvalidStreamId(stream_id),
            ) && final(self).unchanged(old(self)),
    {
        match self.streams.remove(&stream_id) {
            Some(info) => {
                let mut flow = info.flow_control;
                flow.add_recv_credits(size);
                self.set_flow(stream_id, info, flow);
                assert(self.streams@.dom() =~= old(self).streams@.dom());
                Ok(())
            },
            None => {
                assert(self.streams@ =~= old(self).streams@);
                Err(ProtocolError::InvalidStreamId(stream_id))
            },
        }
    }
}

impl Default for StreamMultiplexer {
    /// A multiplexer without streams, with the default configuration.
    fn default() -> (m: StreamMultiplexer)
        ensures
            m.wf(),
            m.streams() == Map::<u32, StreamInfo>::empty(),
            m.outbound() == Seq::<Frame>::empty(),
            m.next_id() == 1,
    {
        StreamMultiplexer::new()
    }
}

impl StreamHandle {
    /// The id of the stream.
    pub closed spec fn id(&self) -> u32 {
        self.stream_id
    }

    /// The state of the stream as this end sees it.
    pub closed spec fn spec_state(&self) -> StreamState {
        self.state
    }

    /// The sequence number of the next frame sent through this handle.
    pub closed spec fn next_sequence(&self) -> u64 {
        self.next_sequence
    }

    /// The id of the stream.
    pub fn stream_id(&self) -> (id: u32)
        ensures
            id == self.id(),
    {
        self.stream_id
    }

    /// The state of the stream as this end sees it.
    #[verifier::when_used_as_spec(spec_state)]
    pub fn state(&self) -> (s: StreamState)
        ensures
            s == self.spec_state(),
    {
        self.state
    }

    /// Sending `payload` is allowed: its length fits 32 bits and the
    /// stream's flow control state covers it.
    pub open spec fn may_send(&self, mux: &StreamMultiplexer, payload: Seq<u8>) -> bool {
        &&& payload.len() <= u32::MAX
        &&& mux.streams()[self.id()].flow_control.spec_can_send(payload.len() as u32)
    }

    /// Sends a data frame on the stream.
    ///
    /// Refused, with nothing changed and no frame emitted: on a closed
    /// stream; on a stream that the multiplexer does not know; for data that
    /// the flow control state does not cover; when the sequence numbers are
    /// used up. Otherwise the frame carries the next sequence number and goes
    /// to the end of the outbound queue, and the credits are taken.
    pub fn send_data(&mut self, mux: &mut StreamMultiplexer, payload: Vec<u8>) -> (r: Result<
        (),
        ProtocolError,
    >)
        requires
            old(mux).wf(),
        ensures
            final(mux).wf(),
            final(self).id() == old(self).id(),
            final(self).spec_state() == old(self).spec_state(),
            r is Err ==> final(mux).unchanged(old(mux)) && final(self).next_sequence()
                == old(self).next_sequence(),
            old(self).spec_state() == StreamState::Closed ==> (r matches Err(
                ProtocolError::StreamClosed,
            )),
            old(self).spec_state() != StreamState::Closed && !old(mux).streams().contains_key(
                old(self).id(),
            ) ==> r == Err::<(), ProtocolError>(ProtocolError::InvalidStreamId(old(self).id())),
            old(self).spec_state() != StreamState::Closed && old(mux).streams().contains_key(
                old(self).id(),
            ) && !old(self).may_send(old(mux), payload@) ==> (r matches Err(
                ProtocolError::FlowControlViolation,
            )),
            old(self).spec_state() != StreamState::Closed && old(mux).streams().contains_key(
                old(self).id(),
            ) && old(self).may_send(old(mux), payload@) && old(self).next_sequence() > u32::MAX
                ==> (r matches Err(ProtocolError::InvalidFrame)),
            old(self).spec_state() != StreamState::Closed && old(mux).streams().contains_key(
                old(self).id(),
            ) && old(self).may_send(old(mux), payload@) && old(self).next_sequence() <= u32::MAX
                ==> {
                &&& r is Ok
                &&& final(self).next_sequence() == old(self).next_sequence() + 1
                &&& final(mux).outbound() == old(mux).outbound().push(
                    Frame {
                        stream_id: old(self).id(),
                        sequence: old(self).next_sequence() as u32,
                        flags: FrameFlags(FLAG_NONE),
                        payload,
                    },
                )
                &&& final(mux).next_id() == old(mux).next_id()
                &&& final(mux).config() == old(mux).config()
                &&& final(mux).streams().dom() == old(mux).streams().dom()
                &&& with_flow(
                    old(mux).streams()[old(self).id()],
                    final(mux).streams()[old(self).id()],
                    old(mux).streams()[old(self).id()].flow_control.after_send(
                        payload@.len() as u32,
                    ),
                )
                &&& forall|id: u32|
                    id != old(self).id() && old(mux).streams().contains_key(id)
                        ==> final(mux).streams()[id] == old(mux).streams()[id]
            },
    {
        if self.state == StreamState::Closed {
            return Err(ProtocolError::StreamClosed);
        }
        let flow = match mux.streams.get(&self.stream_id) {
            Some(info) => info.flow_control,
            None => { return Err(ProtocolError::InvalidStreamId(self.stream_id)); },
        };
        if payload.len() > 0xffff_ffff {
            return Err(ProtocolError::FlowControlViolation);
        }
        let size: u32 = payload.len() as u32;
        if !flow.can_send(size) {
            return Err(ProtocolError::FlowControlViolation);
        }
        if self.next_sequence > 0xffff_ffff {
            return Err(ProtocolError::InvalidFrame);
        }
        let sequence: u32 = self.next_sequence as u32;
        self.next_sequence = self.next_sequence + 1;
        let frame = Frame::data(self.stream_id, sequence, payload);
        let info = match mux.streams.remove(&self.stream_id) {
            Some(info) => info,
            None => { return Err(ProtocolError::InvalidStreamId(self.stream_id)); },
        };
        let mut flow = flow;
        let _ = flow.consume_send_credits(size);
        mux.set_flow(self.stream_id, info, flow);
        assert(mux.streams@.dom() =~= old(mux).streams@.dom());
        mux.outbound.push(frame);
        Ok(())
    }

    /// Sends the end-of-stream frame and marks the stream half closed.
    /// Refused, with nothing changed, on a closed stream and when the
    /// sequence numbers are used up.
    pub fn send_end_stream(&mut self, mux: &mut StreamMultiplexer) -> (r: Result<
        (),
        ProtocolError,
    >)
        ensures
            old(mux).wf() ==> final(mux).wf(),
            final(self).id() == old(self).id(),
            final(mux).streams() == old(mux).streams(),
            final(mux).next_id() == old(mux).next_id(),
            final(mux).config() == old(mux).config(),
            r is Err ==> final(mux).outbound() == old(mux).outbound()
                && final(self).next_sequence() == old(self).next_sequence()
                && final(self).spec_state() == old(self).spec_state(),
            old(self).spec_state() == StreamState::Closed ==> (r matches Err(
                ProtocolError::StreamClosed,
            )),
            old(self).spec_state() != StreamState::Closed && old(self).next_sequence() > u32::MAX
                ==> (r matches Err(ProtocolError::InvalidFrame)),
            old(self).spec_state() != StreamState::Closed && old(self).next_sequence() <= u32::MAX
                ==> {
                &&& r is Ok
                &&& final(self).spec_state() == StreamState::HalfClosed
                &&& final(self).next_sequence() == old(self).next_sequence() + 1
                &&& final(mux).outbound().len() == old(mux).outbound().len() + 1
                &&& final(mux).outbound().drop_last() == old(mux).outbound()
                &&& final(mux).outbound().last().stream_id == old(self).id()
                &&& final(mux).outbound().last().sequence == old(self).next_sequence()
                &&& final(mux).outbound().last().flags == FrameFlags(FLAG_END_STREAM)
                &&& final(mux).outbound().last().payload@ == Seq::<u8>::empty()
            },
    {
        if self.state == StreamState::Closed {
            return Err(ProtocolError::StreamClosed);
        }
        if self.next_sequence > 0xffff_ffff {
            return Err(ProtocolError::InvalidFrame);
        }
        let sequence: u32 = self.next_sequence as u32;
        self.next_sequence = self.next_sequence + 1;
        let frame = Frame::end_stream(self.stream_id, sequence);
        self.state = StreamState::HalfClosed;
        mux.outbound.push(frame);
        assert(mux.outbound@.drop_last() =~= old(mux).outbound@);
        Ok(())
    }

    /// Takes the oldest frame that waits on the stream, if there is one.
    /// Frames come out in the order of their sequence numbers, each once.
    pub fn recv_frame(&mut self, mux: &mut StreamMultiplexer) -> (r: Option<Frame>)
        requires
            old(mux).wf(),
        ensures
            final(mux).wf(),
            *final(self) == *old(self),
            final(mux).outbound() == old(mux).outbound(),
            final(mux).next_id() == old(mux).next_id(),
            final(mux).config() == old(mux).config(),
            match r {
                Some(f) => {
                    let before = old(mux).streams()[old(self).id()];
                    let after = final(mux).streams()[old(self).id()];
                    &&& old(mux).streams().contains_key(old(self).id())
                    &&& before.queue@.len() > 0
                    &&& f == before.queue@[0]
                    &&& f.stream_id == old(self).id()
                    &&& f.sequence == before.consumed
                    &&& final(mux).streams().dom() == old(mux).streams().dom()
                    &&& after.queue@ == before.queue@.skip(1)
                    &&& after.consumed == before.consumed + 1
                    &&& after.state == before.state
                    &&& after.receiver_open == before.receiver_open
                    &&& after.next_sequence == before.next_sequence
                    &&& after.request_id == before.request_id
                    &&& after.flow_control == before.flow_control
                    &&& forall|id: u32|
                        id != old(self).id() && old(mux).streams().contains_key(id)
                            ==> final(mux).streams()[id] == old(mux).streams()[id]
                },
                None => (!old(mux).streams().contains_key(old(self).id())
                    || old(mux).streams()[old(self).id()].queue@.len() == 0)
                    && final(mux).streams() == old(mux).streams(),
            },
    {
        let waiting: usize = match mux.streams.get(&self.stream_id) {
            Some(info) => info.queue.len(),
            None => { return None; },
        };
        if waiting == 0 {
            return None;
        }
        let mut info = match mux.streams.remove(&self.stream_id) {
            Some(info) => info,
            None => { return None; },
        };
        let ghost before = info;
        let frame = info.queue.remove(0);
        info.consumed = info.consumed + 1;
        proof {
            assert(info.queue@ =~= before.queue@.skip(1));
            assert forall|i: int| 0 <= i < info.queue@.len() implies (#[trigger] info.queue@[i]).stream_id
                == self.stream_id && info.queue@[i].sequence == info.consumed + i by {
                assert(info.queue@[i] == before.queue@[i + 1]);
            }
            assert(before.queue@[0].sequence == before.consumed + 0);
        }
        let _ = mux.streams.insert(self.stream_id, info);
        assert(mux.streams@.dom() =~= old(mux).streams@.dom());
        Some(frame)
    }

    /// Closes the stream: sends the end-of-stream frame, then removes the
    /// stream from the multiplexer. A handle that is closed already does nothing.
    pub fn close(&mut self, mux: &mut StreamMultiplexer) -> (r: Result<(), ProtocolError>)
        requires
            old(mux).wf(),
        ensures
            final(mux).wf(),
            final(self).id() == old(self).id(),
            final(mux).next_id() == old(mux).next_id(),
            final(mux).config() == old(mux).config(),
            old(self).spec_state() == StreamState::Closed ==> r is Ok && *final(self)
                == *old(self) && final(mux).unchanged(old(mux)),
            old(self).spec_state() != StreamState::Closed && old(self).next_sequence() > u32::MAX
                ==> (r matches Err(ProtocolError::InvalidFrame)) && *final(self) == *old(self)
                && final(mux).unchanged(old(mux)),
            old(self).spec_state() != StreamState::Closed && old(self).next_sequence() <= u32::MAX
                ==> {
                &&& final(self).spec_state() == StreamState::Closed
                &&& final(mux).streams() == old(mux).streams().remove(old(self).id())
                &&& final(mux).outbound().len() == old(mux).outbound().len() + 1
                &&& final(mux).outbound().drop_last() == old(mux).outbound()
                &&& final(mux).outbound().last().stream_id == old(self).id()
                &&& final(mux).outbound().last().flags == FrameFlags(FLAG_END_STREAM)
                &&& old(mux).streams().contains_key(old(self).id()) ==> r is Ok
                &&& !old(mux).streams().contains_key(old(self).id()) ==> r == Err::<
                    (),
                    ProtocolError,
                >(ProtocolError::InvalidStreamId(old(self).id()))
            },
    {
        if self.state != StreamState::Closed {
            match self.send_end_stream(mux) {
                Ok(()) => {},
                Err(e) => { return Err(e); },
            }
            self.state = StreamState::Closed;
            return mux.close_stream(self.stream_id);
        }
        Ok(())
    }
}

} // verus!
