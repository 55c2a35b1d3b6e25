//! The agent: request handlers and the dispatch of inbound frames.

pub mod agent;
pub mod handlers;
pub mod router;
