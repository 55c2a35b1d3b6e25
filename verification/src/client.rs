//! The client: errors, session lifecycle, request routing and the caller's
//! view of responses.

pub mod context;
pub mod error;
pub mod router;
pub mod session;
