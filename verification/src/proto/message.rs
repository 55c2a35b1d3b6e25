//! Requests, responses and the records they carry.

use vstd::prelude::*;
use crate::strmap::StringMap;
use crate::text::copy_str;
use crate::time::{epoch_seconds, since_unix_epoch, system_now};

verus! {

/// Identifier of a request: a 128-bit value, echoed on every response.
pub type RequestId = u128;

/// A new identifier from `uuid::Uuid::new_v4`, as its 128-bit value. The
/// identifier is random, so nothing is stated of it.
#[verifier::external_body]
pub(crate) fn fresh_request_id() -> RequestId {
    uuid::Uuid::new_v4().as_u128()
}

/// Error codes of an error response.
#[derive(Debug, Clone, Copy, PartialEq, Eq, Structural)]
pub enum ErrorCode {
    /// Invalid request format.
    InvalidRequest,
    /// File not found.
    FileNotFound,
    /// Permission denied.
    PermissionDenied,
    /// Process execution failed.
    ProcessFailed,
    /// WASM execution failed.
    WasmFailed,
    /// Timeout occurred.
    Timeout,
    /// Internal error.
    InternalError,
    /// Unsupported operation.
    Unsupported,
    /// Resource exhausted.
    ResourceExhausted,
    /// Privilege escalation failed.
    PrivilegeEscalationFailed,
}

/// Error record of an error response.
#[derive(Debug, Clone)]
pub struct ErrorDetails {
    /// Error code.
    pub code: ErrorCode,
    /// Human-readable message.
    pub message: String,
    /// Additional context.
    pub context: StringMap,
}

impl ErrorDetails {
    /// An error record without context.
    pub fn new(code: ErrorCode, message: &str) -> (d: ErrorDetails)
        ensures
            d.code == code,
            d.message@ == message@,
            d.context@ == Map::<Seq<char>, Seq<char>>::empty(),
            d.context.keys() == Seq::<Seq<char>>::empty(),
    {
        ErrorDetails { code, message: copy_str(message), context: StringMap::new() }
    }

    /// The record with `value` stored under `key` in its context; an earlier
    /// value under the same key is replaced.
    pub fn with_context(self, key: &str, value: &str) -> (d: ErrorDetails)
        ensures
            d.code == self.code,
            d.message == self.message,
            d.context@ == self.context@.insert(key@, value@),
    {
        let mut d = self;
        let _ = d.context.insert(copy_str(key), copy_str(value));
        d
    }
}

/// File metadata.
#[derive(Debug, Clone, Copy, PartialEq, Eq, Structural)]
pub struct FileMetadata {
    /// File size in bytes.
    pub size: u64,
    /// Permission bits.
    pub mode: u32,
    /// Last modification, in seconds since the Unix epoch.
    pub modified: u64,
    /// Whether this is a directory.
    pub is_dir: bool,
    /// Whether this is a symbolic link.
    pub is_symlink: bool,
}

/// One entry of a directory listing.
#[derive(Debug, Clone)]
pub struct DirEntry {
    /// Entry name.
    pub name: String,
    /// Full path.
    pub path: String,
    /// Metadata of the entry.
    pub metadata: FileMetadata,
}

/// How to escalate privileges.
#[derive(Debug, Clone)]
pub enum PrivilegeMethod {
    /// Use sudo.
    Sudo,
    /// Use su.
    Su,
    /// Use doas.
    Doas,
    /// Prepend a custom command.
    Custom(String),
}

/// Credentials for privilege escalation.
#[derive(Debug, Clone)]
pub struct Credentials {
    /// User to become.
    pub username: Option<String>,
    /// Password.
    pub password: Option<String>,
}

/// Privilege escalation configuration.
#[derive(Debug, Clone)]
pub struct PrivilegeEscalation {
    /// Escalation method.
    pub method: PrivilegeMethod,
    /// Credentials for escalation.
    pub credentials: Option<Credentials>,
    /// Custom prompt patterns to detect.
    pub prompt_patterns: Vec<String>,
}

/// The kinds of request; the set is closed.
#[derive(Debug, Clone, Copy, PartialEq, Eq, Structural)]
pub enum RequestKind {
    /// Process execution.
    ProcessExec,
    /// File download.
    FileGet,
    /// File upload.
    FilePut,
    /// Directory listing.
    DirList,
    /// WASM execution.
    WasmExec,
    /// JSON call.
    JsonCall,
    /// Health probe.
    Ping,
    /// Process execution on a terminal, with privilege escalation.
    PtyExec,
}

impl RequestKind {
    /// The tag under which handlers for this kind are registered.
    pub open spec fn spec_tag(self) -> Seq<char> {
        match self {
            RequestKind::ProcessExec => "process_exec"@,
            RequestKind::FileGet => "file_get"@,
            RequestKind::FilePut => "file_put"@,
            RequestKind::DirList => "dir_list"@,
            RequestKind::WasmExec => "wasm_exec"@,
            RequestKind::JsonCall => "json_call"@,
            RequestKind::Ping => "ping"@,
            RequestKind::PtyExec => "pty_exec"@,
        }
    }

    /// The tag under which handlers for this kind are registered.
    pub fn tag(self) -> (t: &'static str)
        ensures
            t@ == self.spec_tag(),
    {
        match self {
            RequestKind::ProcessExec => "process_exec",
            RequestKind::FileGet => "file_get",
            RequestKind::FilePut => "file_put",
            RequestKind::DirList => "dir_list",
            RequestKind::WasmExec => "wasm_exec",
            RequestKind::JsonCall => "json_call",
            RequestKind::Ping => "ping",
            RequestKind::PtyExec => "pty_exec",
        }
    }
}

/// A request.
#[derive(Debug, Clone)]
pub enum Request {
    /// Run a process.
    ProcessExec {
        /// Request id.
        id: RequestId,
        /// Program and arguments.
        command: Vec<String>,
        /// Environment variables.
        env: StringMap,
        /// Working directory.
        cwd: Option<String>,
        /// Bytes for standard input.
        stdin: Option<Vec<u8>>,
        /// Timeout in seconds.
        timeout: Option<u64>,
    },
    /// Read a file.
    FileGet {
        /// Request id.
        id: RequestId,
        /// Path of the file.
        path: String,
        /// Half-open byte range `[start, end)`.
        range: Option<(u64, u64)>,
    },
    /// Write a file.
    FilePut {
        /// Request id.
        id: RequestId,
        /// Path of the file.
        path: String,
        /// Content to write.
        content: Vec<u8>,
        /// Permission bits.
        mode: Option<u32>,
        /// Create missing parent directories.
        create_dirs: bool,
    },
    /// List a directory.
    DirList {
        /// Request id.
        id: RequestId,
        /// Path of the directory.
        path: String,
        /// Include entries whose name starts with a dot.
        include_hidden: bool,
        /// Descend into subdirectories.
        recursive: bool,
    },
    /// Run a WASM module.
    WasmExec {
        /// Request id.
        id: RequestId,
        /// Module bytes.
        module: Vec<u8>,
        /// Input bytes.
        input: Vec<u8>,
        /// Timeout in seconds.
        timeout: Option<u64>,
    },
    /// Call a method with JSON parameters.
    JsonCall {
        /// Request id.
        id: RequestId,
        /// Method name.
        method: String,
        /// Parameters, as JSON text in UTF-8.
        params: Vec<u8>,
    },
    /// Health probe.
    Ping {
        /// Request id.
        id: RequestId,
        /// Seconds since the Unix epoch at the sender.
        timestamp: u64,
    },
    /// Run a process on a terminal, with privilege escalation.
    PtyExec {
        /// Request id.
        id: RequestId,
        /// Program and arguments.
        command: Vec<String>,
        /// Environment variables.
        env: StringMap,
        /// Working directory.
        cwd: Option<String>,
        /// Privilege escalation.
        privilege: Option<PrivilegeEscalation>,
        /// Timeout in seconds.
        timeout: Option<u64>,
    },
}

impl Request {
    /// The id of the request.
    pub open spec fn spec_id(&self) -> RequestId {
        match *self {
            Request::ProcessExec { id, .. } => id,
            Request::FileGet { id, .. } => id,
            Request::FilePut { id, .. } => id,
            Request::DirList { id, .. } => id,
            Request::WasmExec { id, .. } => id,
            Request::JsonCall { id, .. } => id,
            Request::Ping { id, .. } => id,
            Request::PtyExec { id, .. } => id,
        }
    }

    /// The id of the request.
    #[verifier::when_used_as_spec(spec_id)]
    pub fn id(&self) -> (r: RequestId)
        ensures
            r == self.spec_id(),
    {
        match self {
            Request::ProcessExec { id, .. } => *id,
            Request::FileGet { id, .. } => *id,
            Request::FilePut { id, .. } => *id,
            Request::DirList { id, .. } => *id,
            Request::WasmExec { id, .. } => *id,
            Request::JsonCall { id, .. } => *id,
            Request::Ping { id, .. } => *id,
            Request::PtyExec { id, .. } => *id,
        }
    }

    /// The kind of the request.
    pub open spec fn spec_kind(&self) -> RequestKind {
        match *self {
            Request::ProcessExec { .. } => RequestKind::ProcessExec,
            Request::FileGet { .. } => RequestKind::FileGet,
            Request::FilePut { .. } => RequestKind::FilePut,
            Request::DirList { .. } => RequestKind::DirList,
            Request::WasmExec { .. } => RequestKind::WasmExec,
            Request::JsonCall { .. } => RequestKind::JsonCall,
            Request::Ping { .. } => RequestKind::Ping,
            Request::PtyExec { .. } => RequestKind::PtyExec,
        }
    }

    /// The kind of the request.
    #[verifier::when_used_as_spec(spec_kind)]
    pub fn kind(&self) -> (k: RequestKind)
        ensures
            k == self.spec_kind(),
    {
        match self {
            Request::ProcessExec { .. } => RequestKind::ProcessExec,
            Request::FileGet { .. } => RequestKind::FileGet,
            Request::FilePut { .. } => RequestKind::FilePut,
            Request::DirList { .. } => RequestKind::DirList,
            Request::WasmExec { .. } => RequestKind::WasmExec,
            Request::JsonCall { .. } => RequestKind::JsonCall,
            Request::Ping { .. } => RequestKind::Ping,
            Request::PtyExec { .. } => RequestKind::PtyExec,
        }
    }

    /// A process execution request with a new id.
    pub fn process_exec(
        command: Vec<String>,
        env: StringMap,
        cwd: Option<String>,
        stdin: Option<Vec<u8>>,
        timeout: Option<u64>,
    ) -> (r: Request)
        ensures
            r == (Request::ProcessExec { id: r.spec_id(), command, env, cwd, stdin, timeout }),
    {
        Request::ProcessExec { id: fresh_request_id(), command, env, cwd, stdin, timeout }
    }

    /// A file get request with a new id.
    pub fn file_get(path: String, range: Option<(u64, u64)>) -> (r: Request)
        ensures
            r == (Request::FileGet { id: r.spec_id(), path, range }),
    {
        Request::FileGet { id: fresh_request_id(), path, range }
    }

    /// A file put request with a new id.
    pub fn file_put(path: String, content: Vec<u8>, mode: Option<u32>, create_dirs: bool) -> (r:
        Request)
        ensures
            r == (Request::FilePut { id: r.spec_id(), path, content, mode, create_dirs }),
    {
        Request::FilePut { id: fresh_request_id(), path, content, mode, create_dirs }
    }

    /// A ping request with a new id, stamped with the current time.
    pub fn ping() -> (r: Request)
        ensures
            r.spec_kind() == RequestKind::Ping,
    {
        let now = epoch_seconds(since_unix_epoch(&system_now()));
        Request::Ping { id: fresh_request_id(), timestamp: now }
    }
}

/// A response.
#[derive(Debug, Clone)]
pub enum Response {
    /// Result of a process execution.
    ProcessResult {
        /// Id of the request answered.
        request_id: RequestId,
        /// Exit code.
        exit_code: i32,
        /// Standard output.
        stdout: Vec<u8>,
        /// Standard error.
        stderr: Vec<u8>,
        /// Duration in milliseconds.
        duration_ms: u64,
    },
    /// Content of a file.
    FileContent {
        /// Id of the request answered.
        request_id: RequestId,
        /// File content.
        content: Vec<u8>,
        /// File metadata.
        metadata: FileMetadata,
    },
    /// Result of a file put.
    FilePutResult {
        /// Id of the request answered.
        request_id: RequestId,
        /// Bytes written.
        bytes_written: u64,
    },
    /// Directory listing.
    DirListing {
        /// Id of the request answered.
        request_id: RequestId,
        /// Entries of the directory.
        entries: Vec<DirEntry>,
    },
    /// Result of a WASM execution.
    WasmResult {
        /// Id of the request answered.
        request_id: RequestId,
        /// Output bytes.
        output: Vec<u8>,
        /// Duration in milliseconds.
        duration_ms: u64,
    },
    /// Result of a JSON call.
    JsonResult {
        /// Id of the request answered.
        request_id: RequestId,
        /// Result, as JSON text in UTF-8.
        result: Vec<u8>,
    },
    /// Answer to a ping.
    Pong {
        /// Id of the request answered.
        request_id: RequestId,
        /// Timestamp of the ping.
        timestamp: u64,
        /// Seconds since the Unix epoch at the responder.
        response_timestamp: u64,
    },
    /// Result of a process execution on a terminal.
    PtyResult {
        /// Id of the request answered.
        request_id: RequestId,
        /// Exit code.
        exit_code: i32,
        /// Standard output followed by standard error.
        output: Vec<u8>,
        /// Duration in milliseconds.
        duration_ms: u64,
    },
    /// The request failed.
    Error {
        /// Id of the request answered.
        request_id: RequestId,
        /// Error record.
        error: ErrorDetails,
    },
}

impl Response {
    /// The id of the request that this response answers.
    pub open spec fn spec_request_id(&self) -> RequestId {
        match *self {
            Response::ProcessResult { request_id, .. } => request_id,
            Response::FileContent { request_id, .. } => request_id,
            Response::FilePutResult { request_id, .. } => request_id,
            Response::DirListing { request_id, .. } => request_id,
            Response::WasmResult { request_id, .. } => request_id,
            Response::JsonResult { request_id, .. } => request_id,
            Response::Pong { request_id, .. } => request_id,
            Response::PtyResult { request_id, .. } => request_id,
            Response::Error { request_id, .. } => request_id,
        }
    }

    /// The id of the request that this response answers.
    #[verifier::when_used_as_spec(spec_request_id)]
    pub fn request_id(&self) -> (r: RequestId)
        ensures
            r == self.spec_request_id(),
    {
        match self {
            Response::ProcessResult { request_id, .. } => *request_id,
            Response::FileContent { request_id, .. } => *request_id,
            Response::FilePutResult { request_id, .. } => *request_id,
            Response::DirListing { request_id, .. } => *request_id,
            Response::WasmResult { request_id, .. } => *request_id,
            Response::JsonResult { request_id, .. } => *request_id,
            Response::Pong { request_id, .. } => *request_id,
            Response::PtyResult { request_id, .. } => *request_id,
            Response::Error { request_id, .. } => *request_id,
        }
    }

    /// Whether the response is an error with this code and message for this request.
    pub open spec fn is_error_with(self, request_id: RequestId, code: ErrorCode, message: Seq<char>)
        -> bool {
        match self {
            Response::Error { request_id: id, error } => id == request_id && error.code == code
                && error.message@ == message && error.context@ == Map::<
                Seq<char>,
                Seq<char>,
            >::empty(),
            _ => false,
        }
    }

    /// An error response.
    pub fn error(request_id: RequestId, error: ErrorDetails) -> (r: Response)
        ensures
            r == (Response::Error { request_id, error }),
    {
        Response::Error { request_id, error }
    }

    /// An error response with a new record of this code and message.
    pub fn failure(request_id: RequestId, code: ErrorCode, message: &str) -> (r: Response)
        ensures
            r.is_error_with(request_id, code, message@),
    {
        Response::Error { request_id, error: ErrorDetails::new(code, message) }
    }

    /// The answer to a ping, stamped with `now`.
    pub fn pong_at(request_id: RequestId, timestamp: u64, now: u64) -> (r: Response)
        ensures
            r == (Response::Pong { request_id, timestamp, response_timestamp: now }),
    {
        Response::Pong { request_id, timestamp, response_timestamp: now }
    }

    /// The answer to a ping, stamped with the current time.
    pub fn pong(request_id: RequestId, timestamp: u64) -> (r: Response)
        ensures
            r matches Response::Pong { request_id: id, timestamp: t, .. } && id == request_id && t
                == timestamp,
    {
        let now = epoch_seconds(since_unix_epoch(&system_now()));
        Response::pong_at(request_id, timestamp, now)
    }
}

/// What a frame's payload carries.
#[derive(Debug, Clone)]
pub enum Message {
    /// A request.
    Request(Request),
    /// A response.
    Response(Response),
}

impl Message {
    /// A message that carries a request.
    pub fn request(req: Request) -> (m: Message)
        ensures
            m == Message::Request(req),
    {
        Message::Request(req)
    }

    /// A message that carries a response.
    pub fn response(resp: Response) -> (m: Message)
        ensures
            m == Message::Response(resp),
    {
        Message::Response(resp)
    }

    /// The request id that the message carries: that of the request, or that
    /// of the request which the response answers.
    pub open spec fn spec_request_id(&self) -> Option<RequestId> {
        match *self {
            Message::Request(req) => Some(req.spec_id()),
            Message::Response(resp) => Some(resp.spec_request_id()),
        }
    }

    /// The request id that the message carries.
    #[verifier::when_used_as_spec(spec_request_id)]
    pub fn request_id(&self) -> (r: Option<RequestId>)
        ensures
            r == self.spec_request_id(),
    {
        match self {
            Message::Request(req) => Some(req.id()),
            Message::Response(resp) => Some(resp.request_id()),
        }
    }
}

} // verus!
