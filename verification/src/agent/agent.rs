//! The agent's dispatch loop: what to do with each inbound frame.

use vstd::prelude::*;
use crate::proto::codec::FrameCodec;
use crate::proto::error::ProtocolError;
use crate::proto::frame::{Frame, FrameFlags, FLAG_ERROR, FLAG_NONE};
use crate::proto::message::{ErrorCode, ErrorDetails, Message, Request, RequestId, Response};
use crate::tagmap::TagMap;
use crate::text::concat;

verus! {

/// Handlers by the tag of the request kind that they serve.
pub struct HandlerRegistry<H> {
    handlers: TagMap<H>,
}

/// What to do with a request.
pub enum Dispatch<'a, H> {
    /// Hand the request to this handler.
    Invoke {
        /// The handler registered for the kind of the request.
        handler: &'a H,
        /// The request.
        request: Request,
    },
    /// Answer at once.
    Respond(Response),
}

impl<H> HandlerRegistry<H> {
    /// The handler registered under `tag`, if any.
    pub closed spec fn lookup(&self, tag: Seq<char>) -> Option<H> {
        self.handlers.lookup(tag)
    }

    /// A registry without handlers.
    pub fn new() -> (r: HandlerRegistry<H>)
        ensures
            forall|tag: Seq<char>| r.lookup(tag) is None,
    {
        HandlerRegistry { handlers: TagMap::new() }
    }

    /// Registers `handler` under `tag`, in place of what was there.
    pub fn register(&mut self, tag: String, handler: H)
        ensures
            forall|t: Seq<char>|
                #[trigger] final(self).lookup(t) == (if t == tag@ {
                    Some(handler)
                } else {
                    old(self).lookup(t)
                }),
    {
        self.handlers.register(tag, handler);
    }

    /// The handler registered under `tag`.
    pub fn get(&self, tag: &str) -> (r: Option<&H>)
        ensures
            match r {
                Some(h) => self.lookup(tag@) == Some(*h),
                None => self.lookup(tag@) is None,
            },
    {
        self.handlers.get(tag)
    }

    /// Whether a handler is registered under `tag`.
    pub fn contains(&self, tag: &str) -> (r: bool)
        ensures
            r == self.lookup(tag@) is Some,
    {
        self.handlers.contains(tag)
    }

    /// What to do with a request: it goes to the handler registered under
    /// the tag of its kind; without one it is answered as unsupported.
    pub fn dispatch(&self, request: Request) -> (d: Dispatch<'_, H>)
        ensures
            match self.lookup(request.spec_kind().spec_tag()) {
                Some(h) => d matches Dispatch::Invoke { handler, request: q } && *handler == h && q
                    == request,
                None => d matches Dispatch::Respond(r) && r.is_error_with(
                    request.spec_id(),
                    ErrorCode::Unsupported,
                    "Unsupported request type: "@ + request.spec_kind().spec_tag(),
                ),
            },
    {
        let tag = request.kind().tag();
        match self.get(tag) {
            Some(handler) => Dispatch::Invoke { handler, request },
            None => Dispatch::Respond(
                Response::failure(
                    request.id(),
                    ErrorCode::Unsupported,
                    concat("Unsupported request type: ", tag).as_str(),
                ),
            ),
        }
    }
}

/// The kinds of frame that the loop tells apart.
#[derive(Debug, Clone, Copy, PartialEq, Eq, Structural)]
pub enum FrameKind {
    /// An error frame: noted, not answered.
    ErrorFrame,
    /// An end-of-stream frame: acknowledged, not answered.
    EndOfStream,
    /// A frame whose payload is a message.
    Data,
}

/// What the loop does after a read.
#[derive(Debug, Clone, Copy, PartialEq, Eq, Structural)]
pub enum LoopAction {
    /// A frame arrived: process it and read on.
    Process,
    /// The input ended between frames: stop in good order.
    Stop,
    /// The input is broken: stop with a failure.
    Fail,
}

/// What to do with the payload of a data frame once it was decoded.
pub enum MessageStep<'a, H> {
    /// The payload is no message: send an error frame with this record.
    Reject(ErrorDetails),
    /// The payload is a response: agents answer no responses.
    Discard,
    /// The payload is a request.
    Request(Dispatch<'a, H>),
}

/// The dispatch loop of the agent, without its input and output.
pub struct AgentLoop<H> {
    codec: FrameCodec,
    handlers: HandlerRegistry<H>,
}

impl<H> AgentLoop<H> {
    /// The handlers registered.
    pub closed spec fn registry(&self) -> HandlerRegistry<H> {
        self.handlers
    }

    /// The codec of the loop.
    pub closed spec fn spec_codec(&self) -> FrameCodec {
        self.codec
    }

    /// A loop without handlers, with a codec of the default limit.
    pub fn new() -> (a: AgentLoop<H>)
        ensures
            forall|tag: Seq<char>| a.registry().lookup(tag) is None,
            a.spec_codec().buffer() == Seq::<u8>::empty(),
    {
        AgentLoop { codec: FrameCodec::new(), handlers: HandlerRegistry::new() }
    }

    /// Registers a handler for a request kind.
    pub fn register_handler(&mut self, request_type: String, handler: H)
        ensures
            final(self).spec_codec() == old(self).spec_codec(),
            forall|t: Seq<char>|
                #[trigger] final(self).registry().lookup(t) == (if t == request_type@ {
                    Some(handler)
                } else {
                    old(self).registry().lookup(t)
                }),
    {
        self.handlers.register(request_type, handler);
    }

    /// The codec, to feed input to and to decode frames from.
    pub fn codec(&mut self) -> (c: &mut FrameCodec)
        ensures
            *c == old(self).spec_codec(),
            final(self).spec_codec() == *final(c),
            final(self).registry() == old(self).registry(),
    {
        &mut self.codec
    }

    /// What the loop does after a read.
    pub fn after_read(&self, result: &Result<Option<Frame>, ProtocolError>) -> (a: LoopAction)
        ensures
            a == (match *result {
                Ok(Some(_)) => LoopAction::Process,
                Ok(None) => LoopAction::Stop,
                Err(_) => LoopAction::Fail,
            }),
    {
        match result {
            Ok(Some(_)) => LoopAction::Process,
            Ok(None) => LoopAction::Stop,
            Err(_) => LoopAction::Fail,
        }
    }

    /// Which kind of frame this is: the error flag wins over the
    /// end-of-stream flag, and a frame with neither carries a message.
    pub fn classify(&self, frame: &Frame) -> (k: FrameKind)
        ensures
            k == (if frame.spec_is_error() {
                FrameKind::ErrorFrame
            } else if frame.spec_is_end_stream() {
                FrameKind::EndOfStream
            } else {
                FrameKind::Data
            }),
    {
        if frame.is_error() {
            FrameKind::ErrorFrame
        } else if frame.is_end_stream() {
            FrameKind::EndOfStream
        } else {
            FrameKind::Data
        }
    }

    /// What to do with the payload of a data frame, given what it decoded to.
    pub fn on_message(&self, decoded: Result<Message, String>) -> (step: MessageStep<'_, H>)
        ensures
            match decoded {
                Err(e) => step matches MessageStep::Reject(d) && d.code
                    == ErrorCode::InvalidRequest && d.message@ == "Invalid message format: "@ + e@,
                Ok(Message::Response(_)) => step is Discard,
                Ok(Message::Request(request)) => step matches MessageStep::Request(d)
                    && match self.registry().lookup(request.spec_kind().spec_tag()) {
                    Some(h) => d matches Dispatch::Invoke { handler, request: q } && *handler == h
                        && q == request,
                    None => d matches Dispatch::Respond(r) && r.is_error_with(
                        request.spec_id(),
                        ErrorCode::Unsupported,
                        "Unsupported request type: "@ + request.spec_kind().spec_tag(),
                    ),
                },
            },
    {
        match decoded {
            Err(e) => MessageStep::Reject(
                ErrorDetails::new(
                    ErrorCode::InvalidRequest,
                    concat("Invalid message format: ", e.as_str()).as_str(),
                ),
            ),
            Ok(Message::Response(_)) => MessageStep::Discard,
            Ok(Message::Request(request)) => MessageStep::Request(self.handlers.dispatch(request)),
        }
    }
}

/// The response for a request whose handler ended in `outcome`: the
/// handler's own, or an internal error that names the failure.
pub fn handler_response(request_id: RequestId, outcome: Result<Response, String>) -> (r: Response)
    ensures
        match outcome {
            Ok(response) => r == response,
            Err(e) => r.is_error_with(
                request_id,
                ErrorCode::InternalError,
                "Handler error: "@ + e@,
            ),
        },
{
    match outcome {
        Ok(response) => response,
        Err(e) => Response::failure(
            request_id,
            ErrorCode::InternalError,
            concat("Handler error: ", e.as_str()).as_str(),
        ),
    }
}

/// The frame that carries a serialized response: a data frame on the stream
/// and with the sequence number of the request.
pub fn response_frame(stream_id: u32, sequence: u32, payload: Vec<u8>) -> (f: Frame)
    ensures
        f == (Frame { stream_id, sequence, flags: FrameFlags(FLAG_NONE), payload }),
{
    Frame::data(stream_id, sequence, payload)
}

/// The frame that carries a serialized error record.
pub fn error_frame(stream_id: u32, sequence: u32, payload: Vec<u8>) -> (f: Frame)
    ensures
        f == (Frame { stream_id, sequence, flags: FrameFlags(FLAG_ERROR), payload }),
{
    Frame::error(stream_id, sequence, payload)
}

} // verus!
