//! Agent-side routing: the streams that are active and the requests that wait.

use vstd::prelude::*;
use crate::agent::agent::{Dispatch, HandlerRegistry};
use crate::proto::frame::Frame;
use crate::proto::message::{ErrorCode, ErrorDetails, Message, Request, RequestId};
use crate::text::concat;

verus! {

/// What the router knows of an active stream.
#[derive(Debug, Clone, Copy, PartialEq, Eq, Structural)]
pub struct AgentStream {
    /// Stream id.
    pub stream_id: u32,
    /// Sequence number of the last frame seen.
    pub sequence: u32,
    /// Request being processed.
    pub request_id: Option<RequestId>,
}

/// A request that waits to be processed, with the place to answer it.
#[derive(Debug)]
pub struct QueuedRequest {
    /// Stream on which the request arrived.
    pub stream_id: u32,
    /// Sequence number under which it arrived.
    pub sequence: u32,
    /// The request.
    pub request: Request,
}

/// What the router did with a frame.
#[derive(Debug, Clone, Copy, PartialEq, Eq, Structural)]
pub enum RouteStep {
    /// An error frame: nothing was done.
    Ignored,
    /// An end-of-stream frame: the stream is no longer active.
    Closed,
    /// A data frame: the stream is noted; its payload is to be decoded.
    Decode,
}

/// The ids of a list of streams, in order.
pub open spec fn stream_ids(streams: Seq<AgentStream>) -> Seq<u32> {
    streams.map_values(|s: AgentStream| s.stream_id)
}

/// Routes frames to handlers by way of a queue of requests.
pub struct AgentRouter<H> {
    streams: Vec<AgentStream>,
    handlers: HandlerRegistry<H>,
    queued: Vec<QueuedRequest>,
}

impl<H> AgentRouter<H> {
    /// The active streams, in the order in which they became active.
    pub closed spec fn active(&self) -> Seq<AgentStream> {
        self.streams@
    }

    /// The requests that wait, oldest first.
    pub closed spec fn waiting(&self) -> Seq<QueuedRequest> {
        self.queued@
    }

    /// The handlers registered.
    pub closed spec fn registry(&self) -> HandlerRegistry<H> {
        self.handlers
    }

    /// No stream is listed twice.
    pub closed spec fn wf(&self) -> bool {
        stream_ids(self.streams@).no_duplicates()
    }

    /// A router without streams, handlers or requests.
    pub fn new() -> (r: AgentRouter<H>)
        ensures
            r.wf(),
            r.active() == Seq::<AgentStream>::empty(),
            r.waiting() == Seq::<QueuedRequest>::empty(),
            forall|tag: Seq<char>| r.registry().lookup(tag) is None,
    {
        AgentRouter { streams: Vec::new(), handlers: HandlerRegistry::new(), queued: Vec::new() }
    }

    /// Registers a handler for a request kind.
    pub fn register_handler(&mut self, request_type: String, handler: H)
        ensures
            final(self).active() == old(self).active(),
            final(self).waiting() == old(self).waiting(),
            old(self).wf() ==> final(self).wf(),
            forall|t: Seq<char>|
                #[trigger] final(self).registry().lookup(t) == (if t == request_type@ {
                    Some(handler)
                } else {
                    old(self).registry().lookup(t)
                }),
    {
        self.handlers.register(request_type, handler);
    }

    fn position(&self, stream_id: u32) -> (r: Option<usize>)
        ensures
            match r {
                Some(i) => i < self.streams@.len() && self.streams@[i as int].stream_id
                    == stream_id,
                None => !stream_ids(self.streams@).contains(stream_id),
            },
    {
        let mut i: usize = 0;
        while i < self.streams.len()
            invariant
                i <= self.streams@.len(),
                forall|k: int| 0 <= k < i ==> stream_ids(self.streams@)[k] != stream_id,
            decreases self.streams@.len() - i,
        {
            if self.streams[i].stream_id == stream_id {
                return Some(i);
            }
            i = i + 1;
        }
        None
    }

    /// Notes the last sequence number seen on a stream; a stream not yet
    /// active becomes active, behind the others.
    pub fn update_stream_info(&mut self, stream_id: u32, sequence: u32)
        requires
            old(self).wf(),
        ensures
            final(self).wf(),
            final(self).waiting() == old(self).waiting(),
            final(self).registry() == old(self).registry(),
            final(self).active().contains(AgentStream { stream_id, sequence, request_id: None }),
            stream_ids(old(self).active()).contains(stream_id) ==> stream_ids(
                final(self).active(),
            ) == stream_ids(old(self).active()),
            !stream_ids(old(self).active()).contains(stream_id) ==> final(self).active()
                == old(self).active().push(AgentStream { stream_id, sequence, request_id: None }),
            forall|s: AgentStream|
                s.stream_id != stream_id
                    ==> (final(self).active().contains(s) <==> old(self).active().contains(s)),
    {
        let entry = AgentStream { stream_id, sequence, request_id: None };
        match self.position(stream_id) {
            Some(i) => {
                self.streams.set(i, entry);
                proof {
                    assert(stream_ids(old(self).streams@)[i as int] == stream_id);
                    assert(stream_ids(self.streams@) =~= stream_ids(old(self).streams@));
                    assert(self.streams@[i as int] == entry);
                    assert forall|s: AgentStream| s.stream_id != stream_id implies (
                    self.streams@.contains(s) <==> old(self).streams@.contains(s)) by {
                        if self.streams@.contains(s) {
                            let k = choose|k: int|
                                0 <= k < self.streams@.len() && self.streams@[k] == s;
                            assert(old(self).streams@[k] == s);
                        }
                        if old(self).streams@.contains(s) {
                            let k = choose|k: int|
                                0 <= k < old(self).streams@.len() && old(self).streams@[k] == s;
                            assert(self.streams@[k] == s);
                        }
                    }
                }
            },
            None => {
                self.streams.push(entry);
                proof {
                    let ids = stream_ids(self.streams@);
                    assert(ids =~= stream_ids(old(self).streams@).push(stream_id));
                    assert(self.streams@[self.streams@.len() - 1] == entry);
                    assert forall|s: AgentStream| s.stream_id != stream_id implies (
                    self.streams@.contains(s) <==> old(self).streams@.contains(s)) by {
                        if self.streams@.contains(s) {
                            let k = choose|k: int|
                                0 <= k < self.streams@.len() && self.streams@[k] == s;
                            assert(old(self).streams@[k] == s);
                        }
                        if old(self).streams@.contains(s) {
                            let k = choose|k: int|
                                0 <= k < old(self).streams@.len() && old(self).streams@[k] == s;
                            assert(self.streams@[k] == s);
                        }
                    }
                }
            },
        }
    }

    /// Removes a stream from the active ones; the others keep their order.
    pub fn close_stream(&mut self, stream_id: u32) -> (was_active: bool)
        requires
            old(self).wf(),
        ensures
            final(self).wf(),
            final(self).waiting() == old(self).waiting(),
            final(self).registry() == old(self).registry(),
            was_active == stream_ids(old(self).active()).contains(stream_id),
            !stream_ids(final(self).active()).contains(stream_id),
            forall|s: AgentStream|
                s.stream_id != stream_id
                    ==> (final(self).active().contains(s) <==> old(self).active().contains(s)),
            final(self).active().len() == old(self).active().len() - (if was_active {
                1int
            } else {
                0int
            }),
    {
        match self.position(stream_id) {
            Some(i) => {
                let _ = self.streams.remove(i);
                proof {
                    let before = old(self).streams@;
                    let after = self.streams@;
                    assert(stream_ids(before)[i as int] == stream_id);
                    assert(stream_ids(after) =~= stream_ids(before).remove(i as int));
                    assert forall|a: int, b: int|
                        0 <= a < after.len() && 0 <= b < after.len() && a != b implies stream_ids(
                        after,
                    )[a] != stream_ids(after)[b] by {
                        let a2 = if a < i {
                            a
                        } else {
                            a + 1
                        };
                        let b2 = if b < i {
                            b
                        } else {
                            b + 1
                        };
                        assert(stream_ids(after)[a] == stream_ids(before)[a2]);
                        assert(stream_ids(after)[b] == stream_ids(before)[b2]);
                    }
                    assert forall|k: int| 0 <= k < after.len() implies stream_ids(after)[k]
                        != stream_id by {
                        let k2 = if k < i {
                            k
                        } else {
                            k + 1
                        };
                        assert(stream_ids(after)[k] == stream_ids(before)[k2]);
                    }
                    assert forall|s: AgentStream| s.stream_id != stream_id implies (after.contains(
                        s,
                    ) <==> before.contains(s)) by {
                        if after.contains(s) {
                            let k = choose|k: int| 0 <= k < after.len() && after[k] == s;
                            let k2 = if k < i {
                                k
                            } else {
                                k + 1
                            };
                            assert(before[k2] == s);
                        }
                        if before.contains(s) {
                            let k = choose|k: int| 0 <= k < before.len() && before[k] == s;
                            assert(k != i);
                            let k2 = if k < i {
                                k
                            } else {
                                k - 1
                            };
                            assert(after[k2] == s);
                        }
                    }
                }
                true
            },
            None => false,
        }
    }

    /// Routes a frame: an error frame is ignored, an end-of-stream frame
    /// closes its stream, and a data frame marks its stream active with the
    /// frame's sequence number and leaves the payload to be decoded.
    pub fn route_frame(&mut self, frame: &Frame) -> (step: RouteStep)
        requires
            old(self).wf(),
        ensures
            final(self).wf(),
            final(self).waiting() == old(self).waiting(),
            final(self).registry() == old(self).registry(),
            step == (if frame.spec_is_error() {
                RouteStep::Ignored
            } else if frame.spec_is_end_stream() {
                RouteStep::Closed
            } else {
                RouteStep::Decode
            }),
            step == RouteStep::Ignored ==> final(self).active() == old(self).active(),
            step == RouteStep::Closed ==> !stream_ids(final(self).active()).contains(
                frame.stream_id,
            ),
            step == RouteStep::Decode ==> final(self).active().contains(
                AgentStream {
                    stream_id: frame.stream_id,
                    sequence: frame.sequence,
                    request_id: None,
                },
            ),
            forall|s: AgentStream|
                s.stream_id != frame.stream_id
                    ==> (final(self).active().contains(s) <==> old(self).active().contains(s)),
    {
        if frame.is_error() {
            return RouteStep::Ignored;
        }
        if frame.is_end_stream() {
            let _ = self.close_stream(frame.stream_id);
            return RouteStep::Closed;
        }
        self.update_stream_info(frame.stream_id, frame.sequence);
        RouteStep::Decode
    }

    /// Takes what the payload of a data frame decoded to: a request joins
    /// the queue, a response is dropped, and a payload that is no message
    /// yields the error record to send back.
    pub fn accept(&mut self, stream_id: u32, sequence: u32, decoded: Result<Message, String>)
        -> (r: Option<ErrorDetails>)
        ensures
            final(self).active() == old(self).active(),
            final(self).registry() == old(self).registry(),
            old(self).wf() ==> final(self).wf(),
            match decoded {
                Err(e) => r matches Some(d) && d.code == ErrorCode::InvalidRequest && d.message@
                    == "Invalid message format: "@ + e@ && final(self).waiting()
                        == old(self).waiting(),
                Ok(Message::Response(_)) => r is None && final(self).waiting()
                    == old(self).waiting(),
                Ok(Message::Request(request)) => r is None && final(self).waiting()
                    == old(self).waiting().push(QueuedRequest { stream_id, sequence, request }),
            },
    {
        match decoded {
            Err(e) => Some(
                ErrorDetails::new(
                    ErrorCode::InvalidRequest,
                    concat("Invalid message format: ", e.as_str()).as_str(),
                ),
            ),
            Ok(Message::Response(_)) => None,
            Ok(Message::Request(request)) => {
                self.queued.push(QueuedRequest { stream_id, sequence, request });
                None
            },
        }
    }

    /// Takes the request that has waited longest.
    pub fn next_request(&mut self) -> (r: Option<QueuedRequest>)
        ensures
            final(self).active() == old(self).active(),
            final(self).registry() == old(self).registry(),
            old(self).wf() ==> final(self).wf(),
            match r {
                Some(q) => old(self).waiting().len() > 0 && q == old(self).waiting()[0]
                    && final(self).waiting() == old(self).waiting().skip(1),
                None => old(self).waiting().len() == 0 && final(self).waiting()
                    == old(self).waiting(),
            },
    {
        if self.queued.len() == 0 {
            return None;
        }
        let q = self.queued.remove(0);
        assert(self.queued@ =~= old(self).queued@.skip(1));
        Some(q)
    }

    /// What to do with a request: see `HandlerRegistry::dispatch`.
    pub fn process_request(&self, request: Request) -> (d: Dispatch<'_, H>)
        ensures
            match self.registry().lookup(request.spec_kind().spec_tag()) {
                Some(h) => d matches Dispatch::Invoke { handler, request: q } && *handler == h && q
                    == request,
                None => d matches Dispatch::Respond(r) && r.is_error_with(
                    request.spec_id(),
                    ErrorCode::Unsupported,
                    "Unsupported request type: "@ + request.spec_kind().spec_tag(),
                ),
            },
    {
        self.handlers.dispatch(request)
    }

    /// Number of active streams.
    pub fn active_stream_count(&self) -> (n: usize)
        ensures
            n == self.active().len(),
    {
        self.streams.len()
    }

    /// The ids of the active streams, in the order in which they became active.
    pub fn active_streams(&self) -> (ids: Vec<u32>)
        ensures
            ids@ == stream_ids(self.active()),
    {
        let mut ids: Vec<u32> = Vec::new();
        let mut i: usize = 0;
        while i < self.streams.len()
            invariant
                i <= self.streams@.len(),
                ids@ == stream_ids(self.streams@).subrange(0, i as int),
            decreases self.streams@.len() - i,
        {
            ids.push(self.streams[i].stream_id);
            assert(ids@ =~= stream_ids(self.streams@).subrange(0, i + 1));
            i = i + 1;
        }
        assert(stream_ids(self.streams@).subrange(0, self.streams@.len() as int) == stream_ids(
            self.streams@,
        ));
        ids
    }
}

} // verus!
