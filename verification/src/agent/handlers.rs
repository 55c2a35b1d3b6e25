//! Request handlers: what each decides before and after the work that only
//! the host can do.

use vstd::prelude::*;
use crate::proto::message::{
    DirEntry, ErrorCode, FileMetadata, PrivilegeEscalation, PrivilegeMethod, Request, RequestId,
    Response,
};
use crate::strmap::StringMap;
use crate::time::{epoch_seconds, since_unix_epoch, system_now};
use crate::wasm::error::WasmError;
use crate::wasm::module::{
    fails_as, hashes, load_verdict, module_hash, LoadVerdict, ModuleCache, WasmModule,
};
use crate::wasm::runtime::{WasmConfig, WasmRuntime};
use vstd::string::StrSliceExecFns;
use vstd::utf8::{decode_utf8, encode_utf8, valid_utf8};
use crate::text::{
    append_copies, concat, copy_str, join_strings, joined, lowercase, occurs_in,
    occurs_in_ignoring_case, push_copy, str_contains, str_contains_ignoring_case, texts,
    utf8_string,
};

verus! {

/// A process to run.
#[derive(Debug)]
pub struct SpawnPlan {
    /// Request that asked for it.
    pub id: RequestId,
    /// Program and arguments; never empty.
    pub command: Vec<String>,
    /// Environment variables.
    pub env: StringMap,
    /// Working directory.
    pub cwd: Option<String>,
    /// Bytes for standard input.
    pub stdin: Option<Vec<u8>>,
    /// Timeout in seconds.
    pub timeout: Option<u64>,
}

/// What a handler of processes decides on a request.
#[derive(Debug)]
pub enum ProcessStep {
    /// Answer at once.
    Respond(Response),
    /// Run a process and report how it ended.
    Spawn(SpawnPlan),
}

/// How running a process ended.
#[derive(Debug)]
pub enum ProcessOutcome {
    /// The process ran to its end.
    Exited {
        /// Exit code, if the process exited with one.
        exit_code: Option<i32>,
        /// Standard output.
        stdout: Vec<u8>,
        /// Standard error.
        stderr: Vec<u8>,
        /// Duration in milliseconds.
        duration_ms: u64,
    },
    /// The process could not be started.
    SpawnFailed(String),
    /// Waiting for the process failed.
    WaitFailed(String),
    /// The timeout expired first.
    TimedOut,
}

/// The exit code reported for a process: its own, or -1 if it had none.
pub open spec fn reported_exit_code(exit_code: Option<i32>) -> i32 {
    match exit_code {
        Some(c) => c,
        None => -1i32,
    }
}

/// Handler for process execution requests.
#[derive(Debug, Clone, Copy)]
pub struct ProcessHandler;

impl ProcessHandler {
    /// What to do on a request: a request of another kind is unsupported, an
    /// empty command is invalid, anything else is run as it stands.
    pub fn plan(&self, request: Request) -> (step: ProcessStep)
        ensures
            match request {
                Request::ProcessExec { id, command, env, cwd, stdin, timeout } => if command@.len()
                    == 0 {
                    step matches ProcessStep::Respond(r) && r.is_error_with(
                        id,
                        ErrorCode::InvalidRequest,
                        "Empty command"@,
                    )
                } else {
                    step matches ProcessStep::Spawn(p) && p == (SpawnPlan {
                        id,
                        command,
                        env,
                        cwd,
                        stdin,
                        timeout,
                    })
                },
                _ => step matches ProcessStep::Respond(r) && r.is_error_with(
                    request.spec_id(),
                    ErrorCode::Unsupported,
                    "ProcessHandler only handles ProcessExec requests"@,
                ),
            },
    {
        match request {
            Request::ProcessExec { id, command, env, cwd, stdin, timeout } => {
                if command.len() == 0 {
                    ProcessStep::Respond(
                        Response::failure(id, ErrorCode::InvalidRequest, "Empty command"),
                    )
                } else {
                    ProcessStep::Spawn(SpawnPlan { id, command, env, cwd, stdin, timeout })
                }
            },
            other => ProcessStep::Respond(
                Response::failure(
                    other.id(),
                    ErrorCode::Unsupported,
                    "ProcessHandler only handles ProcessExec requests",
                ),
            ),
        }
    }

    /// The response for a process that ended in `outcome`. A timeout is
    /// reported as a timeout, never as a failed process.
    pub fn conclude(&self, id: RequestId, outcome: ProcessOutcome) -> (r: Response)
        ensures
            match outcome {
                ProcessOutcome::Exited { exit_code, stdout, stderr, duration_ms } => r == (
                Response::ProcessResult {
                    request_id: id,
                    exit_code: reported_exit_code(exit_code),
                    stdout,
                    stderr,
                    duration_ms,
                }),
                ProcessOutcome::SpawnFailed(m) => r.is_error_with(
                    id,
                    ErrorCode::ProcessFailed,
                    "Failed to spawn process: "@ + m@,
                ),
                ProcessOutcome::WaitFailed(m) => r.is_error_with(
                    id,
                    ErrorCode::ProcessFailed,
                    "Process error: "@ + m@,
                ),
                ProcessOutcome::TimedOut => r.is_error_with(
                    id,
                    ErrorCode::Timeout,
                    "Process execution timed out"@,
                ),
            },
    {
        match outcome {
            ProcessOutcome::Exited { exit_code, stdout, stderr, duration_ms } => {
                let code: i32 = match exit_code {
                    Some(c) => c,
                    None => -1,
                };
                Response::ProcessResult {
                    request_id: id,
                    exit_code: code,
                    stdout,
                    stderr,
                    duration_ms,
                }
            },
            ProcessOutcome::SpawnFailed(m) => Response::failure(
                id,
                ErrorCode::ProcessFailed,
                concat("Failed to spawn process: ", m.as_str()).as_str(),
            ),
            ProcessOutcome::WaitFailed(m) => Response::failure(
                id,
                ErrorCode::ProcessFailed,
                concat("Process error: ", m.as_str()).as_str(),
            ),
            ProcessOutcome::TimedOut => Response::failure(
                id,
                ErrorCode::Timeout,
                "Process execution timed out",
            ),
        }
    }
}

/// The user that an escalation names, if any.
pub open spec fn escalation_user(privilege: PrivilegeEscalation) -> Option<Seq<char>> {
    match privilege.credentials {
        Some(c) => match c.username {
            Some(u) => Some(u@),
            None => None,
        },
        None => None,
    }
}

/// `-u <user>` if a user is named, nothing otherwise.
pub open spec fn user_flag(user: Option<Seq<char>>) -> Seq<Seq<char>> {
    match user {
        Some(u) => seq!["-u"@, u],
        None => Seq::<Seq<char>>::empty(),
    }
}

/// The command that runs `command` with escalated privileges.
///
/// sudo: `sudo -S [-u user] command...`; su: `su [user] -c "command joined by
/// blanks"`; doas: `doas [-u user] command...`; custom: the custom word, then
/// the command.
pub open spec fn privileged_command(command: Seq<Seq<char>>, privilege: PrivilegeEscalation)
    -> Seq<Seq<char>> {
    let user = escalation_user(privilege);
    match privilege.method {
        PrivilegeMethod::Sudo => seq!["sudo"@, "-S"@] + user_flag(user) + command,
        PrivilegeMethod::Su => seq!["su"@] + (match user {
            Some(u) => seq![u],
            None => Seq::<Seq<char>>::empty(),
        }) + seq!["-c"@, joined(command, " "@)],
        PrivilegeMethod::Doas => seq!["doas"@] + user_flag(user) + command,
        PrivilegeMethod::Custom(c) => seq![c@] + command,
    }
}

/// The prompt patterns that apply when a request names none.
pub open spec fn default_prompt_patterns() -> Seq<Seq<char>> {
    seq!["password:"@, "Password:"@, "[sudo] password"@, "su:"@, "doas:"@]
}

/// Some pattern stands in the output, case ignored.
pub open spec fn some_pattern_occurs(output: Seq<char>, patterns: Seq<Seq<char>>) -> bool {
    exists|i: int| 0 <= i < patterns.len() && occurs_in_ignoring_case(output,
        #[trigger] patterns[i])
}

/// Whether the output holds a privilege prompt: one of the custom patterns
/// if there are any, else one of the default patterns, case ignored.
pub open spec fn is_privilege_prompt(output: Seq<char>, patterns: Seq<Seq<char>>) -> bool {
    if patterns.len() > 0 {
        some_pattern_occurs(output, patterns)
    } else {
        some_pattern_occurs(output, default_prompt_patterns())
    }
}

/// What a handler of terminal processes decides on a request.
#[derive(Debug)]
pub enum PtyStep {
    /// Answer at once.
    Respond(Response),
    /// Run a process and report how it ended.
    Spawn(SpawnPlan),
}

/// Handler for process execution on a terminal, with privilege escalation.
#[derive(Debug, Clone, Copy)]
pub struct PtyHandler;

impl PtyHandler {
    fn named_user(privilege: &PrivilegeEscalation) -> (r: Option<&String>)
        ensures
            match r {
                Some(u) => escalation_user(*privilege) == Some(u@),
                None => escalation_user(*privilege) is None,
            },
    {
        match &privilege.credentials {
            Some(c) => match &c.username {
                Some(u) => Some(u),
                None => None,
            },
            None => None,
        }
    }

    /// The command that runs `command` with the privileges asked for.
    pub fn build_privileged_command(&self, command: &[String], privilege: &PrivilegeEscalation)
        -> (r: Vec<String>)
        ensures
            texts(r@) == privileged_command(texts(command@), *privilege),
    {
        let mut out: Vec<String> = Vec::new();
        assert(texts(out@) =~= Seq::<Seq<char>>::empty());
        let user = PtyHandler::named_user(privilege);
        match &privilege.method {
            PrivilegeMethod::Sudo => {
                push_copy(&mut out, "sudo");
                push_copy(&mut out, "-S");
                if let Some(u) = user {
                    push_copy(&mut out, "-u");
                    push_copy(&mut out, u.as_str());
                }
                append_copies(&mut out, command);
                assert(texts(out@) =~= privileged_command(texts(command@), *privilege));
            },
            PrivilegeMethod::Su => {
                push_copy(&mut out, "su");
                if let Some(u) = user {
                    push_copy(&mut out, u.as_str());
                }
                push_copy(&mut out, "-c");
                let line = join_strings(command, " ");
                push_copy(&mut out, line.as_str());
                assert(texts(out@) =~= privileged_command(texts(command@), *privilege));
            },
            PrivilegeMethod::Doas => {
                push_copy(&mut out, "doas");
                if let Some(u) = user {
                    push_copy(&mut out, "-u");
                    push_copy(&mut out, u.as_str());
                }
                append_copies(&mut out, command);
                assert(texts(out@) =~= privileged_command(texts(command@), *privilege));
            },
            PrivilegeMethod::Custom(c) => {
                push_copy(&mut out, c.as_str());
                append_copies(&mut out, command);
                assert(texts(out@) =~= privileged_command(texts(command@), *privilege));
            },
        }
        out
    }

    fn any_pattern_occurs(output: &str, patterns: &[String]) -> (r: bool)
        ensures
            r == some_pattern_occurs(output@, texts(patterns@)),
    {
        let mut i: usize = 0;
        while i < patterns.len()
            invariant
                i <= patterns.len(),
                forall|k: int|
                    0 <= k < i ==> !occurs_in_ignoring_case(output@,
                        #[trigger] texts(patterns@)[k]),
            decreases patterns.len() - i,
        {
            if str_contains_ignoring_case(output, patterns[i].as_str()) {
                assert(texts(patterns@)[i as int] == patterns@[i as int]@);
                return true;
            }
            assert(texts(patterns@)[i as int] == patterns@[i as int]@);
            i = i + 1;
        }
        false
    }

    /// Whether `output` holds a privilege prompt.
    pub fn detect_privilege_prompt(&self, output: &str, patterns: &[String]) -> (r: bool)
        ensures
            r == is_privilege_prompt(output@, texts(patterns@)),
    {
        if patterns.len() > 0 {
            return PtyHandler::any_pattern_occurs(output, patterns);
        }
        let mut defaults: Vec<String> = Vec::new();
        assert(texts(defaults@) =~= Seq::<Seq<char>>::empty());
        push_copy(&mut defaults, "password:");
        push_copy(&mut defaults, "Password:");
        push_copy(&mut defaults, "[sudo] password");
        push_copy(&mut defaults, "su:");
        push_copy(&mut defaults, "doas:");
        assert(texts(defaults@) =~= default_prompt_patterns());
        PtyHandler::any_pattern_occurs(output, defaults.as_slice())
    }

    /// What to do on a request: a request of another kind is unsupported, an
    /// empty command is invalid; otherwise the command is run, behind the
    /// escalation preamble if privileges are asked for.
    pub fn plan(&self, request: Request) -> (step: PtyStep)
        ensures
            match request {
                Request::PtyExec { id, command, env, cwd, privilege, timeout } => if command@.len()
                    == 0 {
                    step matches PtyStep::Respond(r) && r.is_error_with(
                        id,
                        ErrorCode::InvalidRequest,
                        "Empty command"@,
                    )
                } else {
                    step matches PtyStep::Spawn(p) && p.id == id && p.env == env && p.cwd == cwd
                        && p.stdin is None && p.timeout == timeout && p.command@.len() > 0
                        && texts(p.command@) == (match privilege {
                        Some(pe) => privileged_command(texts(command@), pe),
                        None => texts(command@),
                    })
                },
                _ => step matches PtyStep::Respond(r) && r.is_error_with(
                    request.spec_id(),
                    ErrorCode::Unsupported,
                    "PtyHandler only handles PtyExec requests"@,
                ),
            },
    {
        match request {
            Request::PtyExec { id, command, env, cwd, privilege, timeout } => {
                if command.len() == 0 {
                    return PtyStep::Respond(
                        Response::failure(id, ErrorCode::InvalidRequest, "Empty command"),
                    );
                }
                let final_command = match &privilege {
                    Some(pe) => {
                        let c = self.build_privileged_command(command.as_slice(), pe);
                        assert(texts(c@).len() > 0);
                        c
                    },
                    None => command,
                };
                PtyStep::Spawn(
                    SpawnPlan { id, command: final_command, env, cwd, stdin: None, timeout },
                )
            },
            other => PtyStep::Respond(
                Response::failure(
                    other.id(),
                    ErrorCode::Unsupported,
                    "PtyHandler only handles PtyExec requests",
                ),
            ),
        }
    }

    /// The response for a process that ended in `outcome`; standard output
    /// and standard error come back as one stream, output first.
    pub fn conclude(&self, id: RequestId, outcome: ProcessOutcome) -> (r: Response)
        ensures
            match outcome {
                ProcessOutcome::Exited { exit_code, stdout, stderr,
                    duration_ms } => r matches Response::PtyResult {
                    request_id,
                    exit_code: code,
                    output,
                    duration_ms: d,
                } && request_id == id && code == reported_exit_code(exit_code) && output@
                    == stdout@ + stderr@ && d == duration_ms,
                ProcessOutcome::SpawnFailed(m) => r.is_error_with(
                    id,
                    ErrorCode::ProcessFailed,
                    "Process error: "@ + m@,
                ),
                ProcessOutcome::WaitFailed(m) => r.is_error_with(
                    id,
                    ErrorCode::ProcessFailed,
                    "Process error: "@ + m@,
                ),
                ProcessOutcome::TimedOut => r.is_error_with(
                    id,
                    ErrorCode::Timeout,
                    "Process execution timed out"@,
                ),
            },
    {
        match outcome {
            ProcessOutcome::Exited { exit_code, stdout, stderr, duration_ms } => {
                let code: i32 = match exit_code {
                    Some(c) => c,
                    None => -1,
                };
                let mut output = stdout;
                output.extend_from_slice(stderr.as_slice());
                assert(output@ =~= stdout@ + stderr@);
                Response::PtyResult { request_id: id, exit_code: code, output, duration_ms }
            },
            ProcessOutcome::SpawnFailed(m) => Response::failure(
                id,
                ErrorCode::ProcessFailed,
                concat("Process error: ", m.as_str()).as_str(),
            ),
            ProcessOutcome::WaitFailed(m) => Response::failure(
                id,
                ErrorCode::ProcessFailed,
                concat("Process error: ", m.as_str()).as_str(),
            ),
            ProcessOutcome::TimedOut => Response::failure(
                id,
                ErrorCode::Timeout,
                "Process execution timed out",
            ),
        }
    }
}

/// Handler for ping requests.
#[derive(Debug, Clone, Copy)]
pub struct PingHandler;

impl PingHandler {
    /// The response to a request at the time `now`: a ping is answered with
    /// its own timestamp and `now`; any other request is unsupported.
    pub fn handle_at(&self, request: Request, now: u64) -> (r: Response)
        ensures
            match request {
                Request::Ping { id, timestamp } => r == (Response::Pong {
                    request_id: id,
                    timestamp,
                    response_timestamp: now,
                }),
                _ => r.is_error_with(
                    request.spec_id(),
                    ErrorCode::Unsupported,
                    "PingHandler only handles Ping requests"@,
                ),
            },
    {
        match request {
            Request::Ping { id, timestamp } => Response::pong_at(id, timestamp, now),
            other => Response::failure(
                other.id(),
                ErrorCode::Unsupported,
                "PingHandler only handles Ping requests",
            ),
        }
    }

    /// The response to a request now.
    pub fn handle(&self, request: Request) -> (r: Response)
        ensures
            match request {
                Request::Ping { id, timestamp } => r matches Response::Pong {
                    request_id,
                    timestamp: t,
                    ..
                } && request_id == id && t == timestamp,
                _ => r.is_error_with(
                    request.spec_id(),
                    ErrorCode::Unsupported,
                    "PingHandler only handles Ping requests"@,
                ),
            },
    {
        self.handle_at(request, epoch_seconds(since_unix_epoch(&system_now())))
    }
}

/// Permission bits reported for every file.
pub const DEFAULT_FILE_MODE: u32 = 0o644;

/// What a file handler decides on a request.
#[derive(Debug)]
pub enum FileStep {
    /// Answer at once.
    Respond(Response),
    /// Read a file.
    Get {
        /// Request id.
        id: RequestId,
        /// Path of the file.
        path: String,
        /// Half-open byte range.
        range: Option<(u64, u64)>,
    },
    /// Write a file.
    Put {
        /// Request id.
        id: RequestId,
        /// Path of the file.
        path: String,
        /// Content to write.
        content: Vec<u8>,
        /// Permission bits.
        mode: Option<u32>,
        /// Create missing parent directories.
        create_dirs: bool,
    },
    /// List a directory.
    List {
        /// Request id.
        id: RequestId,
        /// Path of the directory.
        path: String,
        /// Include entries whose name starts with a dot.
        include_hidden: bool,
        /// Descend into subdirectories.
        recursive: bool,
    },
}

/// Which bytes of a file to read.
#[derive(Debug, Clone, Copy, PartialEq, Eq, Structural)]
pub enum ReadPlan {
    /// The whole file.
    Whole,
    /// Nothing.
    Empty,
    /// The bytes from `start` up to, not including, `end`.
    Range {
        /// First byte.
        start: u64,
        /// Byte behind the last.
        end: u64,
    },
}

/// The smaller of two numbers.
pub open spec fn at_most(a: u64, b: u64) -> u64 {
    if a <= b {
        a
    } else {
        b
    }
}

/// The bytes to read for a range on a file of `size` bytes: both ends are
/// clamped to the size; a range that is empty after that reads nothing.
pub open spec fn read_plan_for(range: Option<(u64, u64)>, size: u64) -> ReadPlan {
    match range {
        None => ReadPlan::Whole,
        Some((start, end)) => if at_most(start, size) >= at_most(end, size) {
            ReadPlan::Empty
        } else {
            ReadPlan::Range { start: at_most(start, size), end: at_most(end, size) }
        },
    }
}

/// The code for a failed file operation, by what its message says, case
/// ignored: a missing file, a refused access, or an internal error.
pub open spec fn file_error_code(message: Seq<char>) -> ErrorCode {
    let m = lowercase(message);
    if occurs_in(m, "no such file"@) || occurs_in(m, "cannot find"@) || occurs_in(
        m,
        "not found"@,
    ) {
        ErrorCode::FileNotFound
    } else if occurs_in(m, "permission denied"@) || occurs_in(m, "access denied"@) {
        ErrorCode::PermissionDenied
    } else {
        ErrorCode::InternalError
    }
}

/// An entry is hidden if its name starts with a dot.
pub open spec fn is_hidden(name: Seq<char>) -> bool {
    name.len() > 0 && name[0] == '.'
}

/// Whether a listing shows an entry.
pub open spec fn is_listed(entry: DirEntry, include_hidden: bool) -> bool {
    include_hidden || !is_hidden(entry.name@)
}

/// The entries of a listing that are shown, in order.
pub open spec fn listed(listing: Seq<DirEntry>, include_hidden: bool) -> Seq<DirEntry> {
    listing.filter(|e: DirEntry| is_listed(e, include_hidden))
}

/// Whether a walk descends into an entry of the directory `dir`.
pub open spec fn is_descended(entry: DirEntry, dir: Seq<char>, include_hidden: bool) -> bool {
    is_listed(entry, include_hidden) && entry.metadata.is_dir && entry.path@ != dir
}

/// The paths that a walk descends into from a listing of `dir`, in order.
pub open spec fn descended(listing: Seq<DirEntry>, dir: Seq<char>, include_hidden: bool) -> Seq<
    Seq<char>,
> {
    listing.filter(|e: DirEntry| is_descended(e, dir, include_hidden)).map_values(
        |e: DirEntry| e.path@,
    )
}

/// Handler for file and directory requests.
#[derive(Debug, Clone, Copy)]
pub struct FileHandler;

impl FileHandler {
    /// What to do on a request: the three file kinds are passed on with
    /// their parameters, any other request is unsupported.
    pub fn plan(&self, request: Request) -> (step: FileStep)
        ensures
            match request {
                Request::FileGet { id, path, range } => step == (FileStep::Get { id, path, range }),
                Request::FilePut { id, path, content, mode, create_dirs } => step == (
                FileStep::Put { id, path, content, mode, create_dirs }),
                Request::DirList { id, path, include_hidden, recursive } => step == (
                FileStep::List { id, path, include_hidden, recursive }),
                _ => step matches FileStep::Respond(r) && r.is_error_with(
                    request.spec_id(),
                    ErrorCode::Unsupported,
                    "FileHandler only handles file/directory requests"@,
                ),
            },
    {
        match request {
            Request::FileGet { id, path, range } => FileStep::Get { id, path, range },
            Request::FilePut { id, path, content, mode, create_dirs } => FileStep::Put {
                id,
                path,
                content,
                mode,
                create_dirs,
            },
            Request::DirList { id, path, include_hidden, recursive } => FileStep::List {
                id,
                path,
                include_hidden,
                recursive,
            },
            other => FileStep::Respond(
                Response::failure(
                    other.id(),
                    ErrorCode::Unsupported,
                    "FileHandler only handles file/directory requests",
                ),
            ),
        }
    }

    /// Which bytes to read from what was found at a path: a directory is
    /// refused, a file is read as `read_plan_for` says.
    pub fn read_plan(&self, is_dir: bool, range: Option<(u64, u64)>, size: u64) -> (r: Result<
        ReadPlan,
        String,
    >)
        ensures
            match r {
                Ok(p) => !is_dir && p == read_plan_for(range, size),
                Err(m) => is_dir && m@ == "Path is a directory, not a file"@,
            },
    {
        if is_dir {
            return Err(copy_str("Path is a directory, not a file"));
        }
        match range {
            None => Ok(ReadPlan::Whole),
            Some((start, end)) => {
                let actual_start: u64 = if start <= size {
                    start
                } else {
                    size
                };
                let actual_end: u64 = if end <= size {
                    end
                } else {
                    size
                };
                if actual_start >= actual_end {
                    Ok(ReadPlan::Empty)
                } else {
                    Ok(ReadPlan::Range { start: actual_start, end: actual_end })
                }
            },
        }
    }

    /// The metadata reported for a file system entry.
    pub fn metadata(&self, size: u64, modified: u64, is_dir: bool, is_symlink: bool) -> (m:
        FileMetadata)
        ensures
            m == (FileMetadata { size, mode: DEFAULT_FILE_MODE, modified, is_dir, is_symlink }),
    {
        FileMetadata { size, mode: DEFAULT_FILE_MODE, modified, is_dir, is_symlink }
    }

    /// The code for a failed file operation.
    pub fn classify_error(&self, message: &str) -> (code: ErrorCode)
        ensures
            code == file_error_code(message@),
    {
        let m = message.to_lowercase();
        if str_contains(m.as_str(), "no such file") || str_contains(m.as_str(), "cannot find")
            || str_contains(m.as_str(), "not found") {
            ErrorCode::FileNotFound
        } else if str_contains(m.as_str(), "permission denied") || str_contains(
            m.as_str(),
            "access denied",
        ) {
            ErrorCode::PermissionDenied
        } else {
            ErrorCode::InternalError
        }
    }

    /// The response to a file get that ended in `outcome`.
    pub fn get_response(&self, id: RequestId, outcome: Result<(Vec<u8>, FileMetadata), String>)
        -> (r: Response)
        ensures
            match outcome {
                Ok((content, metadata)) => r == (Response::FileContent {
                    request_id: id,
                    content,
                    metadata,
                }),
                Err(m) => r.is_error_with(id, file_error_code(m@), "File get failed: "@ + m@),
            },
    {
        match outcome {
            Ok((content, metadata)) => Response::FileContent { request_id: id, content, metadata },
            Err(m) => Response::failure(
                id,
                self.classify_error(m.as_str()),
                concat("File get failed: ", m.as_str()).as_str(),
            ),
        }
    }

    /// The response to a file put that ended in `outcome`.
    pub fn put_response(&self, id: RequestId, outcome: Result<u64, String>) -> (r: Response)
        ensures
            match outcome {
                Ok(bytes_written) => r == (Response::FilePutResult {
                    request_id: id,
                    bytes_written,
                }),
                Err(m) => r.is_error_with(id, file_error_code(m@), "File put failed: "@ + m@),
            },
    {
        match outcome {
            Ok(bytes_written) => Response::FilePutResult { request_id: id, bytes_written },
            Err(m) => Response::failure(
                id,
                self.classify_error(m.as_str()),
                concat("File put failed: ", m.as_str()).as_str(),
            ),
        }
    }

    /// The response to a directory listing that ended in `outcome`.
    pub fn list_response(&self, id: RequestId, outcome: Result<Vec<DirEntry>, String>) -> (r:
        Response)
        ensures
            match outcome {
                Ok(entries) => r == (Response::DirListing { request_id: id, entries }),
                Err(m) => r.is_error_with(
                    id,
                    file_error_code(m@),
                    "Directory list failed: "@ + m@,
                ),
            },
    {
        match outcome {
            Ok(entries) => Response::DirListing { request_id: id, entries },
            Err(m) => Response::failure(
                id,
                self.classify_error(m.as_str()),
                concat("Directory list failed: ", m.as_str()).as_str(),
            ),
        }
    }
}

/// A directory listing under way: the directories still to read, as a queue,
/// and the entries found so far.
#[derive(Debug)]
pub struct DirWalk {
    include_hidden: bool,
    recursive: bool,
    pending: Vec<String>,
    next: usize,
    entries: Vec<DirEntry>,
}

impl DirWalk {
    /// The directories queued so far, read or not.
    pub closed spec fn queue(&self) -> Seq<Seq<char>> {
        texts(self.pending@)
    }

    /// How many of the queued directories were read.
    pub closed spec fn done(&self) -> nat {
        self.next as nat
    }

    /// The entries found so far.
    pub closed spec fn found(&self) -> Seq<DirEntry> {
        self.entries@
    }

    /// Whether hidden entries are shown.
    pub closed spec fn shows_hidden(&self) -> bool {
        self.include_hidden
    }

    /// Whether the walk descends into subdirectories.
    pub closed spec fn descends(&self) -> bool {
        self.recursive
    }

    /// No more directories were read than are queued.
    pub closed spec fn wf(&self) -> bool {
        self.next <= self.pending@.len()
    }

    /// A walk that starts at `root`.
    pub fn new(root: String, include_hidden: bool, recursive: bool) -> (w: DirWalk)
        ensures
            w.wf(),
            w.queue() == seq![root@],
            w.done() == 0,
            w.found() == Seq::<DirEntry>::empty(),
            w.shows_hidden() == include_hidden,
            w.descends() == recursive,
    {
        let mut pending: Vec<String> = Vec::new();
        pending.push(root);
        assert(texts(pending@) =~= seq![root@]);
        DirWalk { include_hidden, recursive, pending, next: 0, entries: Vec::new() }
    }

    /// The directory to read next, if any is left.
    pub fn next_directory(&self) -> (r: Option<&String>)
        requires
            self.wf(),
        ensures
            match r {
                Some(d) => self.done() < self.queue().len() && d@ == self.queue()[
                    self.done() as int
                ],
                None => self.done() == self.queue().len(),
            },
    {
        if self.next < self.pending.len() {
            Some(&self.pending[self.next])
        } else {
            None
        }
    }

    /// Takes the listing of the directory that was due.
    ///
    /// The entries shown are added to what was found, in order; a walk that
    /// descends queues the directories among them, other than the directory
    /// itself. A directory that could not be read adds nothing; if it is the
    /// root, the walk fails with the reason.
    pub fn record(&mut self, listing: Result<Vec<DirEntry>, String>) -> (r: Result<(), String>)
        requires
            old(self).wf(),
            old(self).done() < old(self).queue().len(),
        ensures
            final(self).wf(),
            final(self).done() == old(self).done() + 1,
            final(self).shows_hidden() == old(self).shows_hidden(),
            final(self).descends() == old(self).descends(),
            match listing {
                Ok(l) => {
                    &&& r is Ok
                    &&& final(self).found() == old(self).found() + listed(
                        l@,
                        old(self).shows_hidden(),
                    )
                    &&& final(self).queue() == old(self).queue() + (if old(self).descends() {
                        descended(
                            l@,
                            old(self).queue()[old(self).done() as int],
                            old(self).shows_hidden(),
                        )
                    } else {
                        Seq::<Seq<char>>::empty()
                    })
                },
                Err(m) => {
                    &&& final(self).found() == old(self).found()
                    &&& final(self).queue() == old(self).queue()
                    &&& old(self).done() == 0 ==> r == Err::<(), String>(m)
                    &&& old(self).done() != 0 ==> r is Ok
                },
            },
    {
        let at: usize = self.next;
        let queued: usize = self.pending.len();
        assert(self.queue().len() == queued);
        self.next = self.next + 1;
        let list = match listing {
            Ok(l) => l,
            Err(m) => {
                if at == 0 {
                    return Err(m);
                }
                return Ok(());
            },
        };
        let dir: String = self.pending[at].clone();
        let hidden: bool = self.include_hidden;
        let ghost show = |e: DirEntry| is_listed(e, hidden);
        let ghost down = |e: DirEntry| is_descended(e, dir@, hidden);
        let ghost path_of = |e: DirEntry| e.path@;
        let mut i: usize = 0;
        assert(list@.subrange(0, 0).filter(show) =~= Seq::<DirEntry>::empty()) by {
            reveal(Seq::filter);
        }
        assert(list@.subrange(0, 0).filter(down).map_values(path_of) =~= Seq::<
            Seq<char>,
        >::empty()) by {
            reveal(Seq::filter);
        }
        while i < list.len()
            invariant
                i <= list.len(),
                at < old(self).pending@.len(),
                self.next == at + 1,
                self.include_hidden == hidden,
                self.recursive == old(self).recursive,
                dir@ == old(self).pending@[at as int]@,
                show == (|e: DirEntry| is_listed(e, hidden)),
                down == (|e: DirEntry| is_descended(e, dir@, hidden)),
                path_of == (|e: DirEntry| e.path@),
                self.entries@ == old(self).entries@ + list@.subrange(0, i as int).filter(show),
                texts(self.pending@) == texts(old(self).pending@) + (if self.recursive {
                    list@.subrange(0, i as int).filter(down).map_values(path_of)
                } else {
                    Seq::<Seq<char>>::empty()
                }),
            decreases list.len() - i,
        {
            let e = &list[i];
            let ghost head = list@.subrange(0, i as int);
            let ghost more = list@.subrange(0, i + 1);
            proof {
                reveal(Seq::filter);
                assert(more.drop_last() =~= head);
                assert(more.last() == *e);
            }
            let name = crate::text::chars_of(e.name.as_str());
            let shown: bool = hidden || !(name.len() > 0 && name[0] == '.');
            assert(shown == is_listed(*e, hidden));
            if shown {
                let copy = DirEntry {
                    name: e.name.clone(),
                    path: e.path.clone(),
                    metadata: e.metadata,
                };
                assert(copy == *e);
                let ghost found_before = self.entries@;
                let ghost queue_before = self.pending@;
                if self.recursive && e.metadata.is_dir && !crate::text::str_eq(
                    e.path.as_str(),
                    dir.as_str(),
                ) {
                    self.pending.push(e.path.clone());
                    assert(texts(self.pending@) =~= texts(queue_before).push(e.path@));
                    assert(more.filter(down).map_values(path_of) =~= head.filter(down).map_values(
                        path_of,
                    ).push(e.path@));
                } else {
                    assert(self.recursive ==> more.filter(down) =~= head.filter(down));
                }
                self.entries.push(copy);
                assert(self.entries@ =~= old(self).entries@ + more.filter(show));
            } else {
                assert(more.filter(show) =~= head.filter(show));
                assert(more.filter(down) =~= head.filter(down));
            }
            i = i + 1;
        }
        assert(list@.subrange(0, list.len() as int) == list@);
        Ok(())
    }

    /// The entries found, in the order in which they were found.
    pub fn finish(self) -> (entries: Vec<DirEntry>)
        ensures
            entries@ == self.found(),
    {
        self.entries
    }
}

/// The JSON text that `serde_json::to_string` writes for a list of bytes, if
/// it writes one.
pub uninterp spec fn json_of_bytes(bytes: Seq<u8>) -> Option<Seq<char>>;

/// `serde_json::to_string` writes a value as JSON text or refuses it; what it
/// writes for a list of bytes depends on the bytes alone.
#[verifier::external_body]
fn json_text(bytes: &Vec<u8>) -> (r: Option<String>)
    ensures
        match r {
            Some(s) => json_of_bytes(bytes@) == Some(s@),
            None => json_of_bytes(bytes@) is None,
        },
{
    serde_json::to_string(bytes).ok()
}

/// The text that a module gets for input bytes: the text that the bytes
/// encode if they are valid UTF-8, else the bytes written as JSON, and
/// nothing if they cannot be written.
pub open spec fn input_text_of(input: Seq<u8>) -> Seq<char> {
    if valid_utf8(input) {
        decode_utf8(input)
    } else {
        match json_of_bytes(input) {
            Some(t) => t,
            None => Seq::<char>::empty(),
        }
    }
}

/// The text of an optional JSON text: the text itself, or nothing.
pub fn json_or_empty(json: Option<String>) -> (s: String)
    ensures
        s@ == (match json {
            Some(t) => t@,
            None => Seq::<char>::empty(),
        }),
{
    match json {
        Some(t) => t,
        None => String::new(),
    }
}

/// What a handler of modules decides on a request.
#[derive(Debug)]
pub enum WasmStep {
    /// Answer at once.
    Respond(Response),
    /// Load and run a module.
    Execute {
        /// Request id.
        id: RequestId,
        /// Module bytes.
        module: Vec<u8>,
        /// Input bytes.
        input: Vec<u8>,
        /// Timeout in seconds.
        timeout: Option<u64>,
    },
}

/// Handler for WASM execution requests. It keeps the modules that it has
/// loaded, by their hash.
#[derive(Debug)]
pub struct WasmHandler {
    runtime: WasmRuntime,
    module_cache: ModuleCache,
}

impl WasmHandler {
    /// The modules loaded so far.
    pub closed spec fn cache(&self) -> ModuleCache {
        self.module_cache
    }

    /// The execution rules.
    pub closed spec fn spec_runtime(&self) -> WasmRuntime {
        self.runtime
    }

    /// A handler with the default configuration and no module loaded.
    pub fn new() -> (r: Result<WasmHandler, WasmError>)
        ensures
            r matches Ok(h) && h.cache().wf() && h.cache().entries() == Seq::<WasmModule>::empty()
                && h.spec_runtime().spec_config().enable_wasi
                    && h.spec_runtime().spec_config().max_fuel
                == Some(1_000_000u64) && h.spec_runtime().spec_config().max_memory == 64 * 1024
                * 1024 && !h.spec_runtime().spec_config().allow_network
                && !h.spec_runtime().spec_config().allow_filesystem,
    {
        match WasmRuntime::new() {
            Ok(runtime) => Ok(WasmHandler { runtime, module_cache: ModuleCache::new() }),
            Err(e) => Err(e),
        }
    }

    /// A handler with this configuration and no module loaded.
    pub fn with_config(config: WasmConfig) -> (r: Result<WasmHandler, WasmError>)
        ensures
            r matches Ok(h) && h.cache().wf() && h.cache().entries() == Seq::<WasmModule>::empty()
                && h.spec_runtime().spec_config() == config,
    {
        match WasmRuntime::with_config(config) {
            Ok(runtime) => Ok(WasmHandler { runtime, module_cache: ModuleCache::new() }),
            Err(e) => Err(e),
        }
    }

    /// The execution rules.
    pub fn runtime(&self) -> (r: &WasmRuntime)
        ensures
            *r == self.spec_runtime(),
    {
        &self.runtime
    }

    /// What to do on a request: a request of another kind is unsupported.
    pub fn plan(&self, request: Request) -> (step: WasmStep)
        ensures
            match request {
                Request::WasmExec { id, module, input, timeout } => step == (WasmStep::Execute {
                    id,
                    module,
                    input,
                    timeout,
                }),
                _ => step matches WasmStep::Respond(r) && r.is_error_with(
                    request.spec_id(),
                    ErrorCode::Unsupported,
                    "WasmHandler only handles WasmExec requests"@,
                ),
            },
    {
        match request {
            Request::WasmExec { id, module, input, timeout } => WasmStep::Execute {
                id,
                module,
                input,
                timeout,
            },
            other => WasmStep::Respond(
                Response::failure(
                    other.id(),
                    ErrorCode::Unsupported,
                    "WasmHandler only handles WasmExec requests",
                ),
            ),
        }
    }

    /// Loads a module and returns its place in the cache. A module whose
    /// hash is held already is not taken in again: the one held is used.
    /// Either way the module at the place has the hash of `module_bytes`,
    /// and that hash is the hash of its own bytes.
    pub fn get_or_load_module(&mut self, module_bytes: Vec<u8>) -> (r: Result<usize, WasmError>)
        requires
            old(self).cache().wf(),
        ensures
            final(self).cache().wf(),
            final(self).spec_runtime() == old(self).spec_runtime(),
            match load_verdict(module_bytes@) {
                LoadVerdict::Accept => r matches Ok(place)
                    && place < final(self).cache().entries().len()
                    && final(self).cache().entries()[place as int].metadata.hash@
                    == module_hash(module_bytes@)
                    && module_hash(final(self).cache().entries()[place as int].bytes@)
                    == module_hash(module_bytes@)
                    && final(self).cache().entries()[place as int].metadata.hash@.len() == 64 && (
                if hashes(old(self).cache().entries()).contains(module_hash(module_bytes@)) {
                    final(self).cache().entries() == old(self).cache().entries()
                } else {
                    final(self).cache().entries().len() == old(self).cache().entries().len() + 1
                        && final(self).cache().entries().drop_last()
                            == old(self).cache().entries()
                            && final(self).cache().entries().last().bytes
                        == module_bytes
                }),
                v => fails_as(r, v, module_bytes@.len()) && final(self).cache().entries()
                    == old(self).cache().entries(),
            },
    {
        let module = match WasmModule::from_bytes(module_bytes) {
            Ok(m) => m,
            Err(e) => { return Err(e); },
        };
        let place = self.module_cache.get_or_insert(module);
        proof {
            if !hashes(old(self).cache().entries()).contains(module_hash(module_bytes@)) {
                assert(self.cache().entries().drop_last() =~= old(self).cache().entries());
            }
        }
        Ok(place)
    }

    /// The text that a module gets for the input bytes of a request.
    pub fn input_text(&self, input: Vec<u8>) -> (s: String)
        ensures
            s@ == input_text_of(input@),
    {
        match utf8_string(&input) {
            Ok(text) => text,
            Err(_) => json_or_empty(json_text(&input)),
        }
    }

    /// The module at a place of the cache, if the place is taken.
    pub fn module(&self, place: usize) -> (r: Option<&WasmModule>)
        ensures
            match r {
                Some(m) => place < self.cache().entries().len() && *m
                    == self.cache().entries()[place as int],
                None => place >= self.cache().entries().len(),
            },
    {
        if place < self.module_cache.len() {
            Some(self.module_cache.at(place))
        } else {
            None
        }
    }

    /// Checks a module's hash against the one expected, if one is expected.
    pub fn verify_module_hash(&self, module: &WasmModule, expected_hash: Option<&str>) -> (r:
        Result<(), String>)
        ensures
            match expected_hash {
                Some(expected) => if expected@ == module.metadata.hash@ {
                    r is Ok
                } else {
                    r matches Err(m) && m@ == "Module hash mismatch: expected "@ + expected@
                        + ", got "@ + module.metadata.hash@
                },
                None => r is Ok,
            },
    {
        match expected_hash {
            Some(expected) => {
                if crate::text::str_eq(module.hash(), expected) {
                    Ok(())
                } else {
                    let a = concat("Module hash mismatch: expected ", expected);
                    let b = concat(a.as_str(), ", got ");
                    Err(concat(b.as_str(), module.hash()))
                }
            },
            None => Ok(()),
        }
    }

    /// The response for a module that could not be loaded.
    pub fn load_failed(&self, id: RequestId, error: &WasmError) -> (r: Response)
        ensures
            r.is_error_with(
                id,
                ErrorCode::WasmFailed,
                "Module loading failed: Failed to load WASM module: "@ + error.text(),
            ),
    {
        Response::failure(
            id,
            ErrorCode::WasmFailed,
            concat(
                "Module loading failed: Failed to load WASM module: ",
                error.describe().as_str(),
            ).as_str(),
        )
    }

    /// The response for a run that ended in `result` after `duration_ms`.
    pub fn conclude(&self, id: RequestId, result: Result<String, WasmError>, duration_ms: u64)
        -> (r: Response)
        ensures
            match result {
                Ok(output) => r matches Response::WasmResult {
                    request_id,
                    output: bytes,
                    duration_ms: d,
                } && request_id == id && bytes@ == vstd::utf8::encode_utf8(output@) && d
                    == duration_ms,
                Err(e) => r.is_error_with(
                    id,
                    ErrorCode::WasmFailed,
                    "Execution failed: "@ + e.text(),
                ),
            },
    {
        match result {
            Ok(output) => Response::WasmResult {
                request_id: id,
                output: output.as_str().as_bytes_vec(),
                duration_ms,
            },
            Err(e) => Response::failure(
                id,
                ErrorCode::WasmFailed,
                concat("Execution failed: ", e.describe().as_str()).as_str(),
            ),
        }
    }
}

} // verus!
