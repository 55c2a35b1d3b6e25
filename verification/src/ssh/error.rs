//! Errors of the transport.

use vstd::prelude::*;
use crate::text::{concat, copy_str, signed_decimal, signed_decimal_string};

verus! {

/// What can go wrong on the transport.
#[derive(Debug)]
pub enum TransportError {
    /// The connection failed.
    Connection(String),
    /// The agent could not be started.
    Bootstrap(String),
    /// Authentication failed.
    Authentication(String),
    /// Reading or writing failed.
    Io(String),
    /// An operation timed out.
    Timeout,
    /// The protocol was violated.
    Protocol(String),
    /// The configuration is wrong.
    Configuration(String),
    /// A remote command failed.
    CommandFailed {
        /// Exit code of the command.
        code: i32,
        /// Error message.
        message: String,
    },
}

impl TransportError {
    /// The text of the error.
    pub open spec fn text(self) -> Seq<char> {
        match self {
            TransportError::Connection(m) => "SSH connection error: "@ + m@,
            TransportError::Bootstrap(m) => "Bootstrap error: "@ + m@,
            TransportError::Authentication(m) => "Authentication failed: "@ + m@,
            TransportError::Io(m) => "I/O error: "@ + m@,
            TransportError::Timeout => "Operation timed out"@,
            TransportError::Protocol(m) => "Protocol error: "@ + m@,
            TransportError::Configuration(m) => "Configuration error: "@ + m@,
            TransportError::CommandFailed { code, message } =>
                "Remote command failed with exit code "@ + signed_decimal(code as int) + ": "@
                    + message@,
        }
    }

    /// The text of the error, as a string.
    pub fn describe(&self) -> (s: String)
        ensures
            s@ == self.text(),
    {
        match self {
            TransportError::Connection(m) => concat("SSH connection error: ", m.as_str()),
            TransportError::Bootstrap(m) => concat("Bootstrap error: ", m.as_str()),
            TransportError::Authentication(m) => concat("Authentication failed: ", m.as_str()),
            TransportError::Io(m) => concat("I/O error: ", m.as_str()),
            TransportError::Timeout => copy_str("Operation timed out"),
            TransportError::Protocol(m) => concat("Protocol error: ", m.as_str()),
            TransportError::Configuration(m) => concat("Configuration error: ", m.as_str()),
            TransportError::CommandFailed { code, message } => {
                let a = concat(
                    "Remote command failed with exit code ",
                    signed_decimal_string(*code).as_str(),
                );
                let b = concat(a.as_str(), ": ");
                concat(b.as_str(), message.as_str())
            },
        }
    }
}

} // verus!
