//! Errors that a caller of the client sees.

use vstd::prelude::*;
use std::time::Duration;
use crate::proto::message::ErrorDetails;
use crate::ssh::error::TransportError;
use crate::text::{concat, copy_str};
use crate::time::{debug_text, duration_debug_text, duration_nanos, NANOS_PER_SEC};

verus! {

/// What can go wrong for a caller.
#[derive(Debug)]
pub enum MitoxideError {
    /// The transport failed.
    Transport(String),
    /// The protocol was violated.
    Protocol(String),
    /// The agent failed.
    Agent(String),
    /// Authentication failed.
    Auth(String),
    /// An operation took longer than allowed.
    Timeout {
        /// The time that was exceeded.
        duration: Duration,
    },
    /// WASM execution failed.
    Wasm(String),
    /// Reading or writing failed.
    Io(String),
    /// A value could not be written or read.
    Serialization(String),
    /// The connection failed.
    Connection(String),
    /// The session is in the wrong state.
    Session(String),
    /// The agent answered a request with an error; the record is kept whole.
    Remote(ErrorDetails),
}

impl MitoxideError {
    /// The text of the error.
    pub open spec fn text(self) -> Seq<char> {
        match self {
            MitoxideError::Transport(m) => "Transport error: "@ + m@,
            MitoxideError::Protocol(m) => "Protocol error: "@ + m@,
            MitoxideError::Agent(m) => "Agent error: "@ + m@,
            MitoxideError::Auth(m) => "Authentication error: "@ + m@,
            MitoxideError::Timeout { duration } => "Timeout after "@ + duration_debug_text(
                duration_nanos(duration),
            ),
            MitoxideError::Wasm(m) => "WASM execution error: "@ + m@,
            MitoxideError::Io(m) => "I/O error: "@ + m@,
            MitoxideError::Serialization(m) => "Serialization error: "@ + m@,
            MitoxideError::Connection(m) => "Connection error: "@ + m@,
            MitoxideError::Session(m) => "Session error: "@ + m@,
            MitoxideError::Remote(d) => "Remote error: "@ + d.message@,
        }
    }

    /// The text of the error, as a string.
    pub fn describe(&self) -> (s: String)
        ensures
            s@ == self.text(),
    {
        match self {
            MitoxideError::Transport(m) => concat("Transport error: ", m.as_str()),
            MitoxideError::Protocol(m) => concat("Protocol error: ", m.as_str()),
            MitoxideError::Agent(m) => concat("Agent error: ", m.as_str()),
            MitoxideError::Auth(m) => concat("Authentication error: ", m.as_str()),
            MitoxideError::Timeout { duration } => concat(
                "Timeout after ",
                debug_text(duration).as_str(),
            ),
            MitoxideError::Wasm(m) => concat("WASM execution error: ", m.as_str()),
            MitoxideError::Io(m) => concat("I/O error: ", m.as_str()),
            MitoxideError::Serialization(m) => concat("Serialization error: ", m.as_str()),
            MitoxideError::Connection(m) => concat("Connection error: ", m.as_str()),
            MitoxideError::Session(m) => concat("Session error: ", m.as_str()),
            MitoxideError::Remote(d) => concat("Remote error: ", d.message.as_str()),
        }
    }

    /// The caller's error for an error of the transport.
    pub fn from_transport(err: TransportError) -> (e: MitoxideError)
        ensures
            reports_transport(e, err),
    {
        match err {
            TransportError::Connection(m) => MitoxideError::Connection(m),
            TransportError::Bootstrap(m) => MitoxideError::Agent(m),
            TransportError::Protocol(m) => MitoxideError::Protocol(m),
            TransportError::Io(m) => MitoxideError::Io(m),
            TransportError::Authentication(m) => MitoxideError::Auth(m),
            TransportError::Timeout => MitoxideError::Timeout { duration: Duration::from_secs(30) },
            TransportError::Configuration(m) => MitoxideError::Protocol(m),
            TransportError::CommandFailed { .. } => MitoxideError::Agent(
                copy_str("Command failed"),
            ),
        }
    }

    /// The error for a message that could not be written in the binary encoding.
    pub fn encode_failed(cause: &str) -> (e: MitoxideError)
        ensures
            e matches MitoxideError::Serialization(m) && m@ == "MessagePack encode error: "@
                + cause@,
    {
        MitoxideError::Serialization(concat("MessagePack encode error: ", cause))
    }

    /// The error for bytes that could not be read in the binary encoding.
    pub fn decode_failed(cause: &str) -> (e: MitoxideError)
        ensures
            e matches MitoxideError::Serialization(m) && m@ == "MessagePack decode error: "@
                + cause@,
    {
        MitoxideError::Serialization(concat("MessagePack decode error: ", cause))
    }

    /// The error for JSON that could not be written or read.
    pub fn json_failed(cause: &str) -> (e: MitoxideError)
        ensures
            e matches MitoxideError::Serialization(m) && m@ == "JSON error: "@ + cause@,
    {
        MitoxideError::Serialization(concat("JSON error: ", cause))
    }
}

/// Whether `e` is the caller's error for the transport error `err`.
pub open spec fn reports_transport(e: MitoxideError, err: TransportError) -> bool {
    match err {
        TransportError::Connection(m) => e == MitoxideError::Connection(m),
        TransportError::Bootstrap(m) => e == MitoxideError::Agent(m),
        TransportError::Protocol(m) => e == MitoxideError::Protocol(m),
        TransportError::Io(m) => e == MitoxideError::Io(m),
        TransportError::Authentication(m) => e == MitoxideError::Auth(m),
        TransportError::Timeout => e matches MitoxideError::Timeout { duration } && duration_nanos(
            duration,
        ) == 30 * NANOS_PER_SEC as nat,
        TransportError::Configuration(m) => e == MitoxideError::Protocol(m),
        TransportError::CommandFailed { .. } => e matches MitoxideError::Agent(m) && m@
            == "Command failed"@,
    }
}

impl From<TransportError> for MitoxideError {
    /// The caller's error for an error of the transport.
    fn from(err: TransportError) -> (e: MitoxideError)
        ensures
            reports_transport(e, err),
    {
        MitoxideError::from_transport(err)
    }
}

impl vstd::std_specs::convert::FromSpecImpl<TransportError> for MitoxideError {
    open spec fn obeys_from_spec() -> bool {
        false
    }

    open spec fn from_spec(err: TransportError) -> MitoxideError {
        arbitrary()
    }
}

} // verus!
