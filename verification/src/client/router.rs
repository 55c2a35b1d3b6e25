//! The client router: requests that wait for their response, stream ids, and
//! what to do with what comes in.

use vstd::prelude::*;
use std::time::Duration;
use crate::client::error::MitoxideError;
use crate::proto::error::ProtocolError;
use crate::proto::frame::{Frame, FrameFlags, FLAG_NONE};
use crate::proto::message::{ErrorCode, Message, RequestId, Response};
use crate::text::{concat, copy_str};

verus! {

/// The ids of a list of waiters, in order.
pub open spec fn waiting_ids<W>(slots: Seq<(RequestId, W)>) -> Seq<RequestId> {
    slots.map_values(|s: (RequestId, W)| s.0)
}

/// The answer that a waiter gets when the router shuts down: an internal
/// error for its own request.
pub open spec fn is_shutdown_notice(response: Response, id: RequestId) -> bool {
    response.is_error_with(id, ErrorCode::InternalError, "Router shutdown"@)
}

/// What the connection task does after a read.
#[derive(Debug, Clone, Copy, PartialEq, Eq, Structural)]
pub enum ReadAction {
    /// A frame arrived: handle it and read on.
    Handle,
    /// The input ended or is broken: the connection is over; stop reading
    /// and shut down, so that every waiter gets its answer.
    Close,
}

/// What to do with what came in.
pub enum Inbound<W> {
    /// A response for a request that waits: hand it to the waiter.
    Deliver {
        /// The waiter registered under the id of the response.
        waiter: W,
        /// The response.
        response: Response,
    },
    /// A response that nobody waits for.
    Unknown(RequestId),
    /// A request: clients answer no requests.
    UnexpectedRequest,
    /// Bytes that are no message.
    Malformed(MitoxideError),
}

/// The router of one connection. `W` is what a caller waits with.
pub struct Router<W> {
    pending: Vec<(RequestId, W)>,
    next_stream_id: u32,
    request_timeout: Duration,
}

impl<W> Router<W> {
    /// The requests that wait, by id, in the order of their registration.
    pub closed spec fn pending(&self) -> Seq<(RequestId, W)> {
        self.pending@
    }

    /// The id of the stream for the next message.
    pub closed spec fn next_id(&self) -> u32 {
        self.next_stream_id
    }

    /// The time that a response may take.
    pub closed spec fn timeout(&self) -> Duration {
        self.request_timeout
    }

    /// No request waits twice.
    pub closed spec fn wf(&self) -> bool {
        waiting_ids(self.pending@).no_duplicates()
    }

    /// Under one id one caller waits: a response is handed to the caller that
    /// registered for the request which it answers, and to no other.
    pub proof fn lemma_one_waiter_per_request(&self, id: RequestId, a: W, b: W)
        requires
            self.wf(),
            self.pending().contains((id, a)),
            self.pending().contains((id, b)),
        ensures
            a == b,
    {
        let i = choose|i: int| 0 <= i < self.pending@.len() && self.pending@[i] == (id, a);
        let j = choose|j: int| 0 <= j < self.pending@.len() && self.pending@[j] == (id, b);
        assert(waiting_ids(self.pending@)[i] == id);
        assert(waiting_ids(self.pending@)[j] == id);
    }

    /// A router on which nothing waits; stream ids start at 1.
    pub fn new(timeout: Duration) -> (r: Router<W>)
        ensures
            r.wf(),
            r.pending() == Seq::<(RequestId, W)>::empty(),
            r.next_id() == 1,
            r.timeout() == timeout,
    {
        Router { pending: Vec::new(), next_stream_id: 1, request_timeout: timeout }
    }

    /// A router on which nothing waits, whose next stream gets the id `first`.
    pub fn with_first_stream_id(timeout: Duration, first: u32) -> (r: Router<W>)
        ensures
            r.wf(),
            r.pending() == Seq::<(RequestId, W)>::empty(),
            r.next_id() == first,
            r.timeout() == timeout,
    {
        Router { pending: Vec::new(), next_stream_id: first, request_timeout: timeout }
    }

    /// The time that a response may take.
    pub fn request_timeout(&self) -> (d: Duration)
        ensures
            d == self.timeout(),
    {
        self.request_timeout.clone()
    }

    /// Number of requests that wait.
    pub fn pending_count(&self) -> (n: usize)
        ensures
            n == self.pending().len(),
    {
        self.pending.len()
    }

    fn position(&self, id: RequestId) -> (r: Option<usize>)
        ensures
            match r {
                Some(i) => i < self.pending@.len() && self.pending@[i as int].0 == id,
                None => !waiting_ids(self.pending@).contains(id),
            },
    {
        let mut i: usize = 0;
        while i < self.pending.len()
            invariant
                i <= self.pending@.len(),
                forall|k: int| 0 <= k < i ==> waiting_ids(self.pending@)[k] != id,
            decreases self.pending@.len() - i,
        {
            if self.pending[i].0 == id {
                return Some(i);
            }
            i = i + 1;
        }
        None
    }

    /// Registers a waiter for the response to `message`, under the id of
    /// its request. A waiter already registered under that id is replaced
    /// and handed back.
    pub fn register(&mut self, message: &Message, waiter: W) -> (r: Result<
        (RequestId, Option<W>),
        MitoxideError,
    >)
        requires
            old(self).wf(),
        ensures
            final(self).wf(),
            final(self).next_id() == old(self).next_id(),
            final(self).timeout() == old(self).timeout(),
            match message.spec_request_id() {
                Some(id) => r matches Ok((rid, replaced)) && rid == id
                    && final(self).pending().contains((id, waiter)) && (if waiting_ids(
                    old(self).pending(),
                ).contains(id) {
                    replaced matches Some(w) && old(self).pending().contains((id, w))
                        && waiting_ids(final(self).pending()) == waiting_ids(old(self).pending())
                } else {
                    replaced is None && final(self).pending() == old(self).pending().push(
                        (id, waiter),
                    )
                }),
                None => r matches Err(MitoxideError::Protocol(m)) && m@
                    == "Message has no request ID"@ && final(self).pending() == old(self).pending(),
            },
    {
        let id = match message.request_id() {
            Some(id) => id,
            None => {
                return Err(MitoxideError::Protocol(copy_str("Message has no request ID")));
            },
        };
        match self.position(id) {
            Some(i) => {
                self.pending.push((id, waiter));
                let replaced = self.pending.swap_remove(i);
                proof {
                    assert(waiting_ids(old(self).pending@)[i as int] == id);
                    assert(self.pending@[i as int] == (id, waiter));
                    assert(waiting_ids(self.pending@) =~= waiting_ids(old(self).pending@));
                    assert(old(self).pending@[i as int] == replaced);
                }
                Ok((id, Some(replaced.1)))
            },
            None => {
                self.pending.push((id, waiter));
                proof {
                    let ids = waiting_ids(self.pending@);
                    assert(ids =~= waiting_ids(old(self).pending@).push(id));
                    assert(self.pending@[self.pending@.len() - 1] == (id, waiter));
                }
                Ok((id, None))
            },
        }
    }

    /// Takes the waiter registered under `id` out of the table.
    pub fn complete(&mut self, id: RequestId) -> (r: Option<W>)
        requires
            old(self).wf(),
        ensures
            final(self).wf(),
            final(self).next_id() == old(self).next_id(),
            final(self).timeout() == old(self).timeout(),
            !waiting_ids(final(self).pending()).contains(id),
            match r {
                Some(w) => old(self).pending().contains((id, w)) && final(self).pending().len()
                    == old(self).pending().len() - 1,
                None => !waiting_ids(old(self).pending()).contains(id) && final(self).pending()
                    == old(self).pending(),
            },
            forall|s: (RequestId, W)|
                s.0 != id ==> (final(self).pending().contains(s) <==> old(self).pending().contains(
                    s,
                )),
    {
        match self.position(id) {
            Some(i) => {
                let slot = self.pending.remove(i);
                proof {
                    let before = old(self).pending@;
                    let after = self.pending@;
                    assert(before[i as int] == slot);
                    assert(waiting_ids(after) =~= waiting_ids(before).remove(i as int));
                    assert forall|a: int, b: int|
                        0 <= a < after.len() && 0 <= b < after.len() && a != b implies waiting_ids(
                        after,
                    )[a] != waiting_ids(after)[b] by {
                        let a2 = if a < i {
                            a
                        } else {
                            a + 1
                        };
                        let b2 = if b < i {
                            b
                        } else {
                            b + 1
                        };
                        assert(waiting_ids(after)[a] == waiting_ids(before)[a2]);
                        assert(waiting_ids(after)[b] == waiting_ids(before)[b2]);
                    }
                    assert forall|k: int| 0 <= k < after.len() implies waiting_ids(after)[k]
                        != id by {
                        let k2 = if k < i {
                            k
                        } else {
                            k + 1
                        };
                        assert(waiting_ids(after)[k] == waiting_ids(before)[k2]);
                        assert(waiting_ids(before)[i as int] == id);
                    }
                    assert forall|s: (RequestId, W)| s.0 != id implies (after.contains(s)
                        <==> before.contains(s)) by {
                        if after.contains(s) {
                            let k = choose|k: int| 0 <= k < after.len() && after[k] == s;
                            let k2 = if k < i {
                                k
                            } else {
                                k + 1
                            };
                            assert(before[k2] == s);
                        }
                        if before.contains(s) {
                            let k = choose|k: int| 0 <= k < before.len() && before[k] == s;
                            let k2 = if k < i {
                                k
                            } else {
                                k - 1
                            };
                            assert(after[k2] == s);
                        }
                    }
                }
                Some(slot.1)
            },
            None => None,
        }
    }

    /// The id of the stream for the next message. Ids start at 1 and grow
    /// by one; after the largest they start again at zero.
    pub fn allocate_stream_id(&mut self) -> (id: u32)
        ensures
            id == old(self).next_id(),
            final(self).next_id() == (if old(self).next_id() == u32::MAX {
                0u32
            } else {
                (old(self).next_id() + 1) as u32
            }),
            final(self).pending() == old(self).pending(),
            final(self).timeout() == old(self).timeout(),
            old(self).wf() ==> final(self).wf(),
    {
        let id: u32 = self.next_stream_id;
        self.next_stream_id = if id == 0xffff_ffff {
            0
        } else {
            id + 1
        };
        id
    }

    /// The frame that carries a serialized message: a data frame with
    /// sequence number zero on a stream of its own.
    pub fn outbound_frame(&mut self, payload: Vec<u8>) -> (f: Frame)
        ensures
            f == (Frame {
                stream_id: old(self).next_id(),
                sequence: 0,
                flags: FrameFlags(FLAG_NONE),
                payload,
            }),
            final(self).next_id() == (if old(self).next_id() == u32::MAX {
                0u32
            } else {
                (old(self).next_id() + 1) as u32
            }),
            final(self).pending() == old(self).pending(),
            final(self).timeout() == old(self).timeout(),
            old(self).wf() ==> final(self).wf(),
    {
        let stream_id = self.allocate_stream_id();
        Frame::new(stream_id, 0, FrameFlags::none(), payload)
    }

    /// What to do with what the payload of an inbound frame decoded to.
    ///
    /// A response goes to the waiter registered under the id of the request
    /// that it answers, and that waiter waits no longer; a response that
    /// nobody waits for is unknown. Requests and bytes that are no message
    /// change nothing.
    pub fn on_inbound(&mut self, decoded: Result<Message, String>) -> (r: Inbound<W>)
        requires
            old(self).wf(),
        ensures
            final(self).wf(),
            final(self).next_id() == old(self).next_id(),
            final(self).timeout() == old(self).timeout(),
            match decoded {
                Ok(Message::Response(response)) => {
                    let id = response.spec_request_id();
                    &&& !waiting_ids(final(self).pending()).contains(id)
                    &&& match r {
                        Inbound::Deliver { waiter, response: delivered } => delivered == response
                            && old(self).pending().contains((id, waiter)),
                        Inbound::Unknown(u) => u == id && !waiting_ids(
                            old(self).pending(),
                        ).contains(id) && final(self).pending() == old(self).pending(),
                        _ => false,
                    }
                    &&& forall|s: (RequestId, W)|
                        s.0 != id
                            ==> (final(self).pending().contains(s) <==> old(self).pending().contains(s))
                },
                Ok(Message::Request(_)) => r is UnexpectedRequest && final(self).pending()
                    == old(self).pending(),
                Err(e) => r matches Inbound::Malformed(MitoxideError::Protocol(m)) && m@
                    == "Failed to deserialize message: "@ + e@ && final(self).pending()
                        == old(self).pending(),
            },
    {
        match decoded {
            Ok(Message::Response(response)) => {
                let id = response.request_id();
                match self.complete(id) {
                    Some(waiter) => Inbound::Deliver { waiter, response },
                    None => Inbound::Unknown(id),
                }
            },
            Ok(Message::Request(_)) => Inbound::UnexpectedRequest,
            Err(e) => Inbound::Malformed(
                MitoxideError::Protocol(concat("Failed to deserialize message: ", e.as_str())),
            ),
        }
    }

    /// The error of a caller whose response did not come in time; the
    /// caller waits no longer.
    pub fn timed_out(&mut self, id: RequestId) -> (e: MitoxideError)
        requires
            old(self).wf(),
        ensures
            final(self).wf(),
            e == (MitoxideError::Timeout { duration: old(self).timeout() }),
            !waiting_ids(final(self).pending()).contains(id),
            final(self).next_id() == old(self).next_id(),
            final(self).timeout() == old(self).timeout(),
            forall|s: (RequestId, W)|
                s.0 != id ==> (final(self).pending().contains(s) <==> old(self).pending().contains(
                    s,
                )),
    {
        let _ = self.complete(id);
        MitoxideError::Timeout { duration: self.request_timeout.clone() }
    }

    /// What the connection task does after a read: a frame is handled; the
    /// end of the input and a failed read are fatal for the connection.
    pub fn after_read(&self, result: &Result<Option<Frame>, ProtocolError>) -> (a: ReadAction)
        ensures
            a == (match *result {
                Ok(Some(_)) => ReadAction::Handle,
                _ => ReadAction::Close,
            }),
    {
        match result {
            Ok(Some(_)) => ReadAction::Handle,
            _ => ReadAction::Close,
        }
    }

    /// The error of a caller whose waiter was dropped.
    pub fn channel_closed(&self) -> (e: MitoxideError)
        ensures
            e matches MitoxideError::Protocol(m) && m@ == "Response channel closed"@,
    {
        MitoxideError::Protocol(copy_str("Response channel closed"))
    }

    /// The error for a message that could not be handed to the connection.
    pub fn send_failed(&self) -> (e: MitoxideError)
        ensures
            e matches MitoxideError::Protocol(m) && m@ == "Failed to send message"@,
    {
        MitoxideError::Protocol(copy_str("Failed to send message"))
    }

    /// Shuts the router down: every waiter leaves the table and gets, once,
    /// an internal error for its own request.
    pub fn shutdown(&mut self) -> (notices: Vec<(W, Response)>)
        ensures
            final(self).wf(),
            final(self).pending() == Seq::<(RequestId, W)>::empty(),
            final(self).next_id() == old(self).next_id(),
            final(self).timeout() == old(self).timeout(),
            notices@.len() == old(self).pending().len(),
            forall|i: int|
                0 <= i < notices@.len() ==> (#[trigger] notices@[i]).0 == old(self).pending()[i].1
                    && is_shutdown_notice(notices@[i].1, old(self).pending()[i].0),
    {
        let mut rest: Vec<(RequestId, W)> = Vec::new();
        core::mem::swap(&mut rest, &mut self.pending);
        let ghost all = rest@;
        let mut notices: Vec<(W, Response)> = Vec::new();
        while rest.len() > 0
            invariant
                self.pending@ == Seq::<(RequestId, W)>::empty(),
                self.next_stream_id == old(self).next_stream_id,
                self.request_timeout == old(self).request_timeout,
                notices@.len() + rest@.len() == all.len(),
                rest@ == all.skip(notices@.len() as int),
                forall|i: int|
                    0 <= i < notices@.len() ==> (#[trigger] notices@[i]).0 == all[i].1
                        && is_shutdown_notice(notices@[i].1, all[i].0),
            decreases rest.len(),
        {
            let ghost at = notices@.len() as int;
            let (id, waiter) = rest.remove(0);
            assert(all[at] == (id, waiter));
            assert(rest@ =~= all.skip(at + 1));
            notices.push(
                (waiter, Response::failure(id, ErrorCode::InternalError, "Router shutdown")),
            );
        }
        notices
    }
}

} // verus!
