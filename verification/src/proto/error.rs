//! Errors of the wire protocol.

use vstd::prelude::*;
use crate::text::{concat, copy_str, decimal, decimal_string};
use crate::proto::message::{ErrorCode, ErrorDetails};

verus! {

/// What can go wrong below the level of messages.
#[derive(Debug)]
pub enum ProtocolError {
    /// Bytes could not be turned into a value, or a value into bytes.
    Serialization(String),
    /// A frame is malformed or arrived out of order.
    InvalidFrame,
    /// A frame body is larger than the codec allows.
    FrameTooLarge {
        /// Size of the body in bytes.
        size: usize,
        /// Largest body the codec accepts.
        max: usize,
    },
    /// The stream is closed.
    StreamClosed,
    /// No stream has this id.
    InvalidStreamId(u32),
    /// The send or receive window does not cover the data.
    FlowControlViolation,
}

impl ProtocolError {
    /// The text of the error.
    pub open spec fn text(self) -> Seq<char> {
        match self {
            ProtocolError::Serialization(m) => "Serialization error: "@ + m@,
            ProtocolError::InvalidFrame => "Invalid frame format"@,
            ProtocolError::FrameTooLarge { size, max } => "Frame too large: "@ + decimal(
                size as nat,
            ) + " bytes (max: "@ + decimal(max as nat) + ")"@,
            ProtocolError::StreamClosed => "Stream closed"@,
            ProtocolError::InvalidStreamId(id) => "Invalid stream ID: "@ + decimal(id as nat),
            ProtocolError::FlowControlViolation => "Flow control violation"@,
        }
    }

    /// The text of the error, as a string.
    pub fn describe(&self) -> (s: String)
        ensures
            s@ == self.text(),
    {
        match self {
            ProtocolError::Serialization(m) => concat("Serialization error: ", m.as_str()),
            ProtocolError::InvalidFrame => copy_str("Invalid frame format"),
            ProtocolError::FrameTooLarge { size, max } => {
                let a = concat("Frame too large: ", decimal_string(*size as u64).as_str());
                let b = concat(a.as_str(), " bytes (max: ");
                let c = concat(b.as_str(), decimal_string(*max as u64).as_str());
                concat(c.as_str(), ")")
            },
            ProtocolError::StreamClosed => copy_str("Stream closed"),
            ProtocolError::InvalidStreamId(id) => concat(
                "Invalid stream ID: ",
                decimal_string(*id as u64).as_str(),
            ),
            ProtocolError::FlowControlViolation => copy_str("Flow control violation"),
        }
    }

    /// The protocol error that an error record stands for: an invalid request
    /// is a malformed frame, everything else a serialization failure with the
    /// record's message.
    pub fn from_details(details: ErrorDetails) -> (e: ProtocolError)
        ensures
            e == (match details.code {
                ErrorCode::InvalidRequest => ProtocolError::InvalidFrame,
                _ => ProtocolError::Serialization(details.message),
            }),
    {
        match details.code {
            ErrorCode::InvalidRequest => ProtocolError::InvalidFrame,
            _ => ProtocolError::Serialization(details.message),
        }
    }

    /// The code under which a protocol error is reported to a peer.
    pub open spec fn code(self) -> ErrorCode {
        match self {
            ProtocolError::Serialization(_) => ErrorCode::InvalidRequest,
            ProtocolError::InvalidFrame => ErrorCode::InvalidRequest,
            ProtocolError::FrameTooLarge { .. } => ErrorCode::ResourceExhausted,
            ProtocolError::StreamClosed => ErrorCode::InternalError,
            ProtocolError::InvalidStreamId(_) => ErrorCode::InvalidRequest,
            ProtocolError::FlowControlViolation => ErrorCode::InternalError,
        }
    }

    /// The message under which a protocol error is reported to a peer: the
    /// text of the error, for a serialization failure its cause alone.
    pub open spec fn report(self) -> Seq<char> {
        match self {
            ProtocolError::Serialization(m) => m@,
            _ => self.text(),
        }
    }

    /// The error record that reports this error to a peer.
    pub fn into_details(self) -> (d: ErrorDetails)
        ensures
            d.code == self.code(),
            d.message@ == self.report(),
            d.context@ == Map::<Seq<char>, Seq<char>>::empty(),
    {
        match self {
            ProtocolError::Serialization(m) => ErrorDetails::new(
                ErrorCode::InvalidRequest,
                m.as_str(),
            ),
            ProtocolError::InvalidFrame => ErrorDetails::new(
                ErrorCode::InvalidRequest,
                "Invalid frame format",
            ),
            ProtocolError::FrameTooLarge { size, max } => {
                let e = ProtocolError::FrameTooLarge { size, max };
                ErrorDetails::new(ErrorCode::ResourceExhausted, e.describe().as_str())
            },
            ProtocolError::StreamClosed => ErrorDetails::new(
                ErrorCode::InternalError,
                "Stream closed",
            ),
            ProtocolError::InvalidStreamId(id) => {
                let e = ProtocolError::InvalidStreamId(id);
                ErrorDetails::new(ErrorCode::InvalidRequest, e.describe().as_str())
            },
            ProtocolError::FlowControlViolation => ErrorDetails::new(
                ErrorCode::InternalError,
                "Flow control violation",
            ),
        }
    }
}

impl From<ErrorDetails> for ProtocolError {
    /// The protocol error that an error record stands for.
    fn from(details: ErrorDetails) -> (e: ProtocolError) {
        ProtocolError::from_details(details)
    }
}

impl vstd::std_specs::convert::FromSpecImpl<ErrorDetails> for ProtocolError {
    open spec fn obeys_from_spec() -> bool {
        true
    }

    open spec fn from_spec(details: ErrorDetails) -> ProtocolError {
        match details.code {
            ErrorCode::InvalidRequest => ProtocolError::InvalidFrame,
            _ => ProtocolError::Serialization(details.message),
        }
    }
}

impl From<ProtocolError> for ErrorDetails {
    /// The error record that reports a protocol error to a peer.
    fn from(error: ProtocolError) -> (d: ErrorDetails)
        ensures
            d.code == error.code(),
            d.message@ == error.report(),
            d.context@ == Map::<Seq<char>, Seq<char>>::empty(),
    {
        error.into_details()
    }
}

impl vstd::std_specs::convert::FromSpecImpl<ProtocolError> for ErrorDetails {
    open spec fn obeys_from_spec() -> bool {
        false
    }

    open spec fn from_spec(error: ProtocolError) -> ErrorDetails {
        arbitrary()
    }
}

} // verus!
