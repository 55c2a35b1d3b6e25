//! The SSH transport: configuration, connections, bootstrap and pooling.

pub mod bootstrap;
pub mod connection;
pub mod error;
pub mod pool;
pub mod transport;
