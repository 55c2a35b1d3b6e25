//! Client–agent remote execution runtime: wire protocol, stream multiplexing,
//! request routing, session lifecycle and the WebAssembly sandbox rules.

pub mod agent;
pub mod client;
pub mod proto;
pub mod ssh;
pub mod strmap;
pub mod tagmap;
pub mod text;
pub mod time;
pub mod wasm;

pub use agent::agent::{AgentLoop, HandlerRegistry};
pub use agent::handlers::{FileHandler, PingHandler, ProcessHandler, PtyHandler, WasmHandler};
pub use agent::router::AgentRouter;
pub use client::context::{Context, ProcessOutput};
pub use client::error::MitoxideError;
pub use client::router::Router;
pub use client::session::{
    AgentConfig, Session, SessionBuilder, SessionConfig, SessionState, SessionStatus,
};
pub use proto::codec::FrameCodec;
pub use proto::error::ProtocolError;
pub use proto::frame::{Frame, FrameFlags};
pub use proto::message::{
    Credentials, DirEntry, ErrorCode, ErrorDetails, FileMetadata, Message, PrivilegeEscalation,
    PrivilegeMethod, Request, RequestId, RequestKind, Response,
};
pub use proto::stream::{
    FlowControlConfig, FlowControlState, StreamHandle, StreamMultiplexer, StreamState,
};
pub use ssh::bootstrap::{Bootstrap, BootstrapMethod, PlatformInfo};
pub use ssh::connection::Connection;
pub use ssh::error::TransportError;
pub use ssh::pool::{ConnectionPool, PoolConfig, PoolStats, PooledConnection};
pub use ssh::transport::{ConnectionInfo, SshConfig, StdioTransport, TransportType};
pub use strmap::StringMap;
pub use wasm::error::WasmError;
pub use wasm::module::{ModuleMetadata, WasmCapability, WasmImport, WasmModule};
pub use wasm::runtime::{WasmConfig, WasmContext, WasmRuntime};
pub use wasm::test_utils::{minimal_wasm, simple_function_wasm, wasi_hello_wasm};
