//! The caller's view: the request for each operation and what its response means.

use vstd::prelude::*;
use std::time::Duration;
use vstd::utf8::{decode_utf8, valid_utf8};
use crate::client::error::MitoxideError;
use crate::proto::message::{FileMetadata, Request, RequestId, RequestKind, Response};
use crate::strmap::StringMap;
use crate::text::{concat, copy_str, utf8_string};
use crate::time::{duration_nanos, NANOS_PER_MILLI};

verus! {

/// Timeout of a process execution, in seconds.
pub const PROCESS_TIMEOUT_SECS: u64 = 300;

/// Timeout of a WASM execution, in seconds.
pub const WASM_TIMEOUT_SECS: u64 = 60;

/// What a process left behind.
#[derive(Debug, Clone)]
pub struct ProcessOutput {
    /// Exit code.
    pub exit_code: i32,
    /// Standard output.
    pub stdout: Vec<u8>,
    /// Standard error.
    pub stderr: Vec<u8>,
    /// How long the process ran.
    pub duration: Duration,
}

impl ProcessOutput {
    /// Whether the process exited with code zero.
    pub fn success(&self) -> (r: bool)
        ensures
            r == (self.exit_code == 0),
    {
        self.exit_code == 0
    }

    /// Standard output as text, if it is valid UTF-8.
    pub fn stdout_string(&self) -> (r: Result<String, MitoxideError>)
        ensures
            match r {
                Ok(s) => valid_utf8(self.stdout@) && s@ == decode_utf8(self.stdout@),
                Err(e) => !valid_utf8(self.stdout@) && e is Protocol,
            },
    {
        match utf8_string(&self.stdout) {
            Ok(s) => Ok(s),
            Err(e) => Err(MitoxideError::Protocol(concat("Invalid UTF-8 in stdout: ", e.as_str()))),
        }
    }

    /// Standard error as text, if it is valid UTF-8.
    pub fn stderr_string(&self) -> (r: Result<String, MitoxideError>)
        ensures
            match r {
                Ok(s) => valid_utf8(self.stderr@) && s@ == decode_utf8(self.stderr@),
                Err(e) => !valid_utf8(self.stderr@) && e is Protocol,
            },
    {
        match utf8_string(&self.stderr) {
            Ok(s) => Ok(s),
            Err(e) => Err(MitoxideError::Protocol(concat("Invalid UTF-8 in stderr: ", e.as_str()))),
        }
    }
}

/// Whether `e` is what a caller sees for a response of the wrong kind.
pub open spec fn is_unexpected(e: MitoxideError) -> bool {
    e matches MitoxideError::Protocol(m) && m@ == "Unexpected response type"@
}

/// The caller's handle on a session.
#[derive(Debug, Clone, Copy)]
pub struct Context {
    session_id: RequestId,
}

impl Context {
    /// The id of the session.
    pub closed spec fn spec_session_id(&self) -> RequestId {
        self.session_id
    }

    /// A context of the session with this id.
    pub fn new(session_id: RequestId) -> (r: Result<Context, MitoxideError>)
        ensures
            r matches Ok(c) && c.spec_session_id() == session_id,
    {
        Ok(Context { session_id })
    }

    /// The id of the session.
    pub fn session_id(&self) -> (id: RequestId)
        ensures
            id == self.spec_session_id(),
    {
        self.session_id
    }

    /// The request that runs `command` with the timeout of five minutes.
    pub fn proc_exec_request(&self, command: Vec<String>) -> (r: Request)
        ensures
            r matches Request::ProcessExec { command: c, env, cwd, stdin, timeout, .. } && c
                == command && env@ == Map::<Seq<char>, Seq<char>>::empty() && cwd is None
                && stdin is None && timeout == Some(PROCESS_TIMEOUT_SECS),
    {
        Request::process_exec(command, StringMap::new(), None, None, Some(PROCESS_TIMEOUT_SECS))
    }

    /// The request that runs `command` in an environment and a working
    /// directory, with input, with the timeout of five minutes.
    pub fn proc_exec_with_env_request(
        &self,
        command: Vec<String>,
        env: StringMap,
        cwd: Option<String>,
        stdin: Option<Vec<u8>>,
    ) -> (r: Request)
        ensures
            r matches Request::ProcessExec { command: c, env: e, cwd: d, stdin: i, timeout, .. }
                && c == command && e == env && d == cwd && i == stdin && timeout == Some(
                PROCESS_TIMEOUT_SECS,
            ),
    {
        Request::process_exec(command, env, cwd, stdin, Some(PROCESS_TIMEOUT_SECS))
    }

    /// The request that uploads `content` to `remote_path`, with default
    /// permissions, creating missing directories.
    pub fn put_request(&self, remote_path: String, content: Vec<u8>) -> (r: Request)
        ensures
            r matches Request::FilePut { path, content: c, mode, create_dirs, .. } && path
                == remote_path && c == content && mode is None && create_dirs,
    {
        Request::file_put(remote_path, content, None, true)
    }

    /// The request that downloads the whole of `remote_path`.
    pub fn get_request(&self, remote_path: String) -> (r: Request)
        ensures
            r matches Request::FileGet { path, range, .. } && path == remote_path && range is None,
    {
        Request::file_get(remote_path, None)
    }

    /// The request that calls `method` with JSON parameters.
    pub fn json_request(&self, method: &str, params: Vec<u8>) -> (r: Request)
        ensures
            r matches Request::JsonCall { method: m, params: p, .. } && m@ == method@ && p
                == params,
    {
        Request::JsonCall {
            id: crate::proto::message::fresh_request_id(),
            method: copy_str(method),
            params,
        }
    }

    /// The request that runs a module on JSON input, with the timeout of a minute.
    pub fn wasm_request(&self, module: Vec<u8>, input: Vec<u8>) -> (r: Request)
        ensures
            r matches Request::WasmExec { module: m, input: i, timeout, .. } && m == module && i
                == input && timeout == Some(WASM_TIMEOUT_SECS),
    {
        Request::WasmExec {
            id: crate::proto::message::fresh_request_id(),
            module,
            input,
            timeout: Some(WASM_TIMEOUT_SECS),
        }
    }

    /// The request that pings the agent.
    pub fn ping_request(&self) -> (r: Request)
        ensures
            r.spec_kind() == RequestKind::Ping,
    {
        Request::ping()
    }

    /// What the response to a process execution means: the output of the
    /// process, the agent's error record, or a response of the wrong kind.
    pub fn process_output(&self, response: Response) -> (r: Result<ProcessOutput, MitoxideError>)
        ensures
            match response {
                Response::ProcessResult { exit_code, stdout, stderr, duration_ms, .. } =>
                    r matches Ok(o) && o.exit_code == exit_code && o.stdout == stdout && o.stderr
                        == stderr && duration_nanos(o.duration) == duration_ms as nat
                        * NANOS_PER_MILLI as nat,
                Response::Error { error, .. } => r == Err::<ProcessOutput, MitoxideError>(
                    MitoxideError::Remote(error),
                ),
                _ => r matches Err(e) && is_unexpected(e),
            },
    {
        match response {
            Response::ProcessResult { exit_code, stdout, stderr, duration_ms, .. } => Ok(
                ProcessOutput {
                    exit_code,
                    stdout,
                    stderr,
                    duration: Duration::from_millis(duration_ms),
                },
            ),
            Response::Error { error, .. } => Err(MitoxideError::Remote(error)),
            _ => Err(MitoxideError::Protocol(copy_str("Unexpected response type"))),
        }
    }

    /// What the response to an upload means: the number of bytes written.
    pub fn bytes_written(&self, response: Response) -> (r: Result<u64, MitoxideError>)
        ensures
            match response {
                Response::FilePutResult { bytes_written, .. } => r == Ok::<u64, MitoxideError>(
                    bytes_written,
                ),
                Response::Error { error, .. } => r == Err::<u64, MitoxideError>(
                    MitoxideError::Remote(error),
                ),
                _ => r matches Err(e) && is_unexpected(e),
            },
    {
        match response {
            Response::FilePutResult { bytes_written, .. } => Ok(bytes_written),
            Response::Error { error, .. } => Err(MitoxideError::Remote(error)),
            _ => Err(MitoxideError::Protocol(copy_str("Unexpected response type"))),
        }
    }

    /// What the response to a download means: the content of the file.
    pub fn file_content(&self, response: Response) -> (r: Result<
        (Vec<u8>, FileMetadata),
        MitoxideError,
    >)
        ensures
            match response {
                Response::FileContent { content, metadata, .. } => r == Ok::<
                    (Vec<u8>, FileMetadata),
                    MitoxideError,
                >((content, metadata)),
                Response::Error { error, .. } => r == Err::<
                    (Vec<u8>, FileMetadata),
                    MitoxideError,
                >(MitoxideError::Remote(error)),
                _ => r matches Err(e) && is_unexpected(e),
            },
    {
        match response {
            Response::FileContent { content, metadata, .. } => Ok((content, metadata)),
            Response::Error { error, .. } => Err(MitoxideError::Remote(error)),
            _ => Err(MitoxideError::Protocol(copy_str("Unexpected response type"))),
        }
    }

    /// What the response to a JSON call means: the result as JSON text.
    pub fn json_result(&self, response: Response) -> (r: Result<Vec<u8>, MitoxideError>)
        ensures
            match response {
                Response::JsonResult { result, .. } => r == Ok::<Vec<u8>, MitoxideError>(result),
                Response::Error { error, .. } => r == Err::<Vec<u8>, MitoxideError>(
                    MitoxideError::Remote(error),
                ),
                _ => r matches Err(e) && is_unexpected(e),
            },
    {
        match response {
            Response::JsonResult { result, .. } => Ok(result),
            Response::Error { error, .. } => Err(MitoxideError::Remote(error)),
            _ => Err(MitoxideError::Protocol(copy_str("Unexpected response type"))),
        }
    }

    /// What the response to a WASM execution means: the output of the module.
    pub fn wasm_output(&self, response: Response) -> (r: Result<Vec<u8>, MitoxideError>)
        ensures
            match response {
                Response::WasmResult { output, .. } => r == Ok::<Vec<u8>, MitoxideError>(output),
                Response::Error { error, .. } => r == Err::<Vec<u8>, MitoxideError>(
                    MitoxideError::Remote(error),
                ),
                _ => r matches Err(e) && is_unexpected(e),
            },
    {
        match response {
            Response::WasmResult { output, .. } => Ok(output),
            Response::Error { error, .. } => Err(MitoxideError::Remote(error)),
            _ => Err(MitoxideError::Protocol(copy_str("Unexpected response type"))),
        }
    }

    /// What the response to a ping means: the timestamps of ping and pong.
    pub fn pong(&self, response: Response) -> (r: Result<(u64, u64), MitoxideError>)
        ensures
            match response {
                Response::Pong { timestamp, response_timestamp, .. } => r == Ok::<
                    (u64, u64),
                    MitoxideError,
                >((timestamp, response_timestamp)),
                Response::Error { error, .. } => r == Err::<(u64, u64), MitoxideError>(
                    MitoxideError::Remote(error),
                ),
                _ => r matches Err(e) && is_unexpected(e),
            },
    {
        match response {
            Response::Pong { timestamp, response_timestamp, .. } => Ok(
                (timestamp, response_timestamp),
            ),
            Response::Error { error, .. } => Err(MitoxideError::Remote(error)),
            _ => Err(MitoxideError::Protocol(copy_str("Unexpected response type"))),
        }
    }
}

} // verus!
