//! The wire protocol: frames, codec, messages and stream multiplexing.

pub mod codec;
pub mod error;
pub mod frame;
pub mod message;
pub mod stream;
