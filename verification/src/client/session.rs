//! Sessions: configuration, the target string, and the lifecycle.

use vstd::prelude::*;
use std::time::Duration;
use crate::client::error::MitoxideError;
use crate::proto::message::RequestId;
use crate::ssh::transport::{ConnectionInfo, SshConfig};
use crate::text::{
    chars_of, concat, copy_str, find_first, parse_port, port_value, push_copy,
    string_of_range, texts,
};
use crate::time::{duration_nanos, NANOS_PER_SEC};

verus! {

/// The port of SSH.
pub const DEFAULT_PORT: u16 = 22;

/// Agent configuration.
#[derive(Debug, Clone)]
pub struct AgentConfig {
    /// Path of the agent binary; without one the built-in binary is used.
    pub binary_path: Option<String>,
    /// Longest run of the agent.
    pub execution_timeout: Duration,
    /// Verify the hash of the binary.
    pub verify_hash: bool,
    /// Verify the signature of the binary.
    pub verify_signature: bool,
}

impl Default for AgentConfig {
    /// The built-in binary, five minutes, no verification.
    fn default() -> (c: AgentConfig)
        ensures
            c.binary_path is None,
            duration_nanos(c.execution_timeout) == 300 * NANOS_PER_SEC as nat,
            !c.verify_hash,
            !c.verify_signature,
    {
        AgentConfig {
            binary_path: None,
            execution_timeout: Duration::from_secs(300),
            verify_hash: false,
            verify_signature: false,
        }
    }
}

/// Session configuration.
#[derive(Debug, Clone)]
pub struct SessionConfig {
    /// SSH configuration.
    pub ssh_config: SshConfig,
    /// Agent configuration.
    pub agent_config: AgentConfig,
    /// Connection timeout.
    pub timeout: Duration,
    /// Largest number of concurrent streams.
    pub max_streams: u32,
    /// Whether the agent is bootstrapped.
    pub bootstrap_agent: bool,
}

/// Where a session stands in its lifecycle.
#[derive(Debug, Clone, PartialEq, Eq)]
pub enum SessionStatus {
    /// The transport is being established.
    Connecting,
    /// The agent is being started.
    Bootstrapping,
    /// The session serves requests.
    Active,
    /// The session was disconnected.
    Disconnected,
    /// The session failed.
    Error(String),
}

impl SessionStatus {
    /// The name of the status.
    pub open spec fn name(self) -> Seq<char> {
        match self {
            SessionStatus::Connecting => "Connecting"@,
            SessionStatus::Bootstrapping => "Bootstrapping"@,
            SessionStatus::Active => "Active"@,
            SessionStatus::Disconnected => "Disconnected"@,
            SessionStatus::Error(m) => "Error: "@ + m@,
        }
    }

    /// A status from which the session can still move on.
    pub open spec fn is_terminal(self) -> bool {
        self is Disconnected || self is Error
    }
}

/// What is known of a session.
#[derive(Debug, Clone)]
pub struct SessionState {
    /// Session id.
    pub id: RequestId,
    /// Target string.
    pub target: String,
    /// Status.
    pub status: SessionStatus,
    /// Version of the agent, if known.
    pub agent_version: Option<String>,
    /// Capabilities of the session.
    pub capabilities: Vec<String>,
    /// Where the transport leads.
    pub connection_info: Option<ConnectionInfo>,
}

/// The capabilities of an active session: process execution and file
/// operations, and WASM execution where it is offered.
pub open spec fn session_capabilities(wasm: bool) -> Seq<Seq<char>> {
    if wasm {
        seq!["process_exec"@, "file_ops"@, "wasm_exec"@]
    } else {
        seq!["process_exec"@, "file_ops"@]
    }
}

impl SessionState {
    /// The state of a session that starts to connect.
    pub fn connecting(id: RequestId, target: String) -> (s: SessionState)
        ensures
            s.id == id,
            s.target == target,
            s.status is Connecting,
            s.agent_version is None,
            s.capabilities@ == Seq::<String>::empty(),
            s.connection_info is None,
    {
        SessionState {
            id,
            target,
            status: SessionStatus::Connecting,
            agent_version: None,
            capabilities: Vec::new(),
            connection_info: None,
        }
    }

    /// Takes the result of the connection test. A failed test ends the
    /// session with a transport error.
    pub fn connection_tested(&mut self, result: Result<(), String>) -> (r: Result<
        (),
        MitoxideError,
    >)
        requires
            old(self).status is Connecting,
        ensures
            final(self).id == old(self).id,
            final(self).target == old(self).target,
            final(self).capabilities == old(self).capabilities,
            final(self).connection_info == old(self).connection_info,
            match result {
                Ok(()) => r is Ok && final(self).status is Connecting,
                Err(e) => (r matches Err(MitoxideError::Transport(m)) && m@
                    == "Connection test failed: "@ + e@)
                        && (final(self).status matches SessionStatus::Error(s) && s@
                        == "Transport: "@ + ("Connection test failed: "@ + e@)),
            },
    {
        match result {
            Ok(()) => Ok(()),
            Err(e) => {
                let m = concat("Connection test failed: ", e.as_str());
                self.status = SessionStatus::Error(concat("Transport: ", m.as_str()));
                Err(MitoxideError::Transport(m))
            },
        }
    }

    /// Takes the result of connecting. With a connection the session goes
    /// on to bootstrap the agent, or, without bootstrap, waits to be
    /// activated; a failure ends it with a transport error.
    pub fn connected(&mut self, result: Result<ConnectionInfo, String>, bootstrap: bool) -> (r:
        Result<(), MitoxideError>)
        requires
            old(self).status is Connecting,
        ensures
            final(self).id == old(self).id,
            final(self).target == old(self).target,
            final(self).capabilities == old(self).capabilities,
            match result {
                Ok(info) => r is Ok && final(self).connection_info == Some(info) && (if bootstrap {
                    final(self).status is Bootstrapping
                } else {
                    final(self).status is Connecting
                }),
                Err(e) => (r matches Err(MitoxideError::Transport(m)) && m@
                    == "Failed to connect: "@ + e@)
                        && (final(self).status matches SessionStatus::Error(s) && s@
                        == "Transport: "@ + ("Failed to connect: "@ + e@))
                        && final(self).connection_info == old(self).connection_info,
            },
    {
        match result {
            Ok(info) => {
                self.connection_info = Some(info);
                if bootstrap {
                    self.status = SessionStatus::Bootstrapping;
                }
                Ok(())
            },
            Err(e) => {
                let m = concat("Failed to connect: ", e.as_str());
                self.status = SessionStatus::Error(concat("Transport: ", m.as_str()));
                Err(MitoxideError::Transport(m))
            },
        }
    }

    /// Takes the result of the bootstrap. A failure ends the session with
    /// an agent error.
    pub fn bootstrapped(&mut self, result: Result<(), String>) -> (r: Result<(), MitoxideError>)
        requires
            old(self).status is Bootstrapping,
        ensures
            final(self).id == old(self).id,
            final(self).target == old(self).target,
            final(self).capabilities == old(self).capabilities,
            final(self).connection_info == old(self).connection_info,
            match result {
                Ok(()) => r is Ok && final(self).status is Bootstrapping,
                Err(e) => (r matches Err(MitoxideError::Agent(m)) && m@
                    == "Agent bootstrap failed: "@ + e@)
                        && (final(self).status matches SessionStatus::Error(s) && s@ == "Agent: "@
                        + ("Agent bootstrap failed: "@ + e@)),
            },
    {
        match result {
            Ok(()) => Ok(()),
            Err(e) => {
                let m = concat("Agent bootstrap failed: ", e.as_str());
                self.status = SessionStatus::Error(concat("Agent: ", m.as_str()));
                Err(MitoxideError::Agent(m))
            },
        }
    }

    /// Makes the session active, with the capabilities of an active session.
    pub fn activate(&mut self, wasm: bool)
        requires
            old(self).status is Connecting || old(self).status is Bootstrapping,
        ensures
            final(self).id == old(self).id,
            final(self).target == old(self).target,
            final(self).connection_info == old(self).connection_info,
            final(self).agent_version == old(self).agent_version,
            final(self).status is Active,
            texts(final(self).capabilities@) == session_capabilities(wasm),
    {
        self.status = SessionStatus::Active;
        let mut capabilities: Vec<String> = Vec::new();
        assert(texts(capabilities@) =~= Seq::<Seq<char>>::empty());
        push_copy(&mut capabilities, "process_exec");
        push_copy(&mut capabilities, "file_ops");
        if wasm {
            push_copy(&mut capabilities, "wasm_exec");
        }
        assert(texts(capabilities@) =~= session_capabilities(wasm));
        self.capabilities = capabilities;
    }

    /// Whether the session serves requests; if not, the error says where
    /// it stands.
    pub fn require_active(&self) -> (r: Result<(), MitoxideError>)
        ensures
            self.status is Active ==> r is Ok,
            !(self.status is Active) ==> (r matches Err(MitoxideError::Protocol(m)) && m@
                == "Session not active: "@ + self.status.name()),
    {
        let name = match &self.status {
            SessionStatus::Active => { return Ok(()); },
            SessionStatus::Connecting => copy_str("Connecting"),
            SessionStatus::Bootstrapping => copy_str("Bootstrapping"),
            SessionStatus::Disconnected => copy_str("Disconnected"),
            SessionStatus::Error(m) => concat("Error: ", m.as_str()),
        };
        Err(MitoxideError::Protocol(concat("Session not active: ", name.as_str())))
    }

    /// Marks the session disconnected.
    pub fn disconnect(&mut self)
        ensures
            final(self).status is Disconnected,
            final(self).id == old(self).id,
            final(self).target == old(self).target,
            final(self).capabilities == old(self).capabilities,
            final(self).connection_info == old(self).connection_info,
    {
        self.status = SessionStatus::Disconnected;
    }
}

/// The user of a target `[user@]host[:port]`: what stands before the first
/// `@`, or `root`.
pub open spec fn target_user(target: Seq<char>) -> Seq<char> {
    match target.index_of_first('@') {
        Some(i) => target.take(i),
        None => "root"@,
    }
}

/// Host and port of a target, still in one piece: what stands behind the
/// first `@`, or the whole target.
pub open spec fn target_address(target: Seq<char>) -> Seq<char> {
    match target.index_of_first('@') {
        Some(i) => target.skip(i + 1),
        None => target,
    }
}

/// Whether an address ends in a port: what stands behind its last colon
/// reads as a port number.
pub open spec fn address_port(address: Seq<char>) -> Option<u16> {
    match address.index_of_last(':') {
        Some(i) => port_value(address.skip(i + 1)),
        None => None,
    }
}

/// The host of a target: the address without its port; an address whose
/// end does not read as a port is a host as a whole.
pub open spec fn target_host(target: Seq<char>) -> Seq<char> {
    let address = target_address(target);
    match address_port(address) {
        Some(_) => address.take(address.index_of_last(':').unwrap()),
        None => address,
    }
}

/// The port of a target: that of its address, or 22.
pub open spec fn target_port(target: Seq<char>) -> u16 {
    match address_port(target_address(target)) {
        Some(p) => p,
        None => DEFAULT_PORT,
    }
}

/// Builder of a session configuration.
#[derive(Debug)]
pub struct SessionBuilder {
    target: String,
    ssh_config: SshConfig,
    agent_config: AgentConfig,
    timeout: Duration,
    max_streams: u32,
    bootstrap_agent: bool,
}

impl SessionBuilder {
    /// The target string.
    pub closed spec fn spec_target(&self) -> String {
        self.target
    }

    /// The configuration built so far.
    pub closed spec fn spec_config(&self) -> SessionConfig {
        SessionConfig {
            ssh_config: self.ssh_config,
            agent_config: self.agent_config,
            timeout: self.timeout,
            max_streams: self.max_streams,
            bootstrap_agent: self.bootstrap_agent,
        }
    }

    /// Reads a target `[user@]host[:port]`.
    pub fn parse_target(target: &str) -> (r: (String, String, u16))
        ensures
            r.0@ == target_user(target@),
            r.1@ == target_host(target@),
            r.2 == target_port(target@),
    {
        let v = chars_of(target);
        proof {
            v@.index_of_first_ensures('@');
        }
        let (username, start) = match find_first(&v, '@') {
            Some(at) => {
                proof {
                    let i = v@.index_of_first('@').unwrap();
                    assert(i == at);
                    assert(v@.subrange(0, at as int) =~= v@.take(at as int));
                }
                (string_of_range(&v, 0, at), at + 1)
            },
            None => {
                proof {
                    if v@.contains('@') {
                        let k = choose|k: int| 0 <= k < v@.len() && v@[k] == '@';
                        assert(false);
                    }
                }
                (copy_str("root"), 0)
            },
        };
        let ghost address = v@.skip(start as int);
        assert(address == target_address(target@)) by {
            assert(v@.skip(0) =~= v@);
        }
        proof {
            address.index_of_last_ensures(':');
        }
        // The last colon of the address, as a position in the whole target.
        let mut colon: Option<usize> = None;
        let mut i: usize = v.len();
        while i > start && colon.is_none()
            invariant
                start <= i <= v.len(),
                match colon {
                    Some(c) => start <= c < v.len() && v@[c as int] == ':' && forall|k: int|
                        c < k < v.len() ==> v@[k] != ':',
                    None => forall|k: int| i <= k < v.len() ==> v@[k] != ':',
                },
            decreases i + (if colon is None {
                1int
            } else {
                0int
            }),
        {
            i = i - 1;
            if v[i] == ':' {
                colon = Some(i);
            }
        }
        match colon {
            Some(c) => {
                proof {
                    assert(address[c - start] == ':');
                    assert(address.contains(':'));
                    let j = address.index_of_last(':').unwrap();
                    if j < c - start {
                        assert(address[c - start] == ':');
                    }
                    if j > c - start {
                        assert(address[j] == v@[start + j]);
                    }
                    assert(j == c - start);
                    assert(address.skip(j + 1) =~= v@.skip(c + 1));
                    assert(address.take(j) =~= v@.subrange(start as int, c as int));
                }
                match parse_port(&v, c + 1) {
                    Some(port) => (username, string_of_range(&v, start, c), port),
                    None => {
                        assert(address =~= v@.subrange(start as int, v.len() as int));
                        (username, string_of_range(&v, start, v.len()), DEFAULT_PORT)
                    },
                }
            },
            None => {
                proof {
                    if address.contains(':') {
                        let k = choose|k: int| 0 <= k < address.len() && address[k] == ':';
                        assert(address[k] == v@[start + k]);
                        assert(false);
                    }
                    assert(address =~= v@.subrange(start as int, v.len() as int));
                }
                (username, string_of_range(&v, start, v.len()), DEFAULT_PORT)
            },
        }
    }

    /// A builder for a target `[user@]host[:port]`: user, host and port come
    /// from the target, everything else is the default; the connection
    /// timeout is 30 seconds, at most 100 streams run at once, and the agent
    /// is bootstrapped.
    pub fn new(target: String) -> (b: SessionBuilder)
        ensures
            b.spec_target() == target,
            b.spec_config().ssh_config.username@ == target_user(target@),
            b.spec_config().ssh_config.host@ == target_host(target@),
            b.spec_config().ssh_config.port == target_port(target@),
            b.spec_config().ssh_config.key_path is None,
            b.spec_config().ssh_config.options@ == Map::<Seq<char>, Seq<char>>::empty(),
            b.spec_config().ssh_config.connect_timeout == 30,
            b.spec_config().ssh_config.command_timeout == 300,
            b.spec_config().agent_config.binary_path is None,
            !b.spec_config().agent_config.verify_hash,
            !b.spec_config().agent_config.verify_signature,
            duration_nanos(b.spec_config().timeout) == 30 * NANOS_PER_SEC as nat,
            b.spec_config().max_streams == 100,
            b.spec_config().bootstrap_agent,
    {
        let (username, host, port) = SessionBuilder::parse_target(target.as_str());
        let defaults = SshConfig::default();
        let ssh_config = SshConfig {
            host,
            port,
            username,
            key_path: defaults.key_path,
            options: defaults.options,
            connect_timeout: defaults.connect_timeout,
            command_timeout: defaults.command_timeout,
        };
        SessionBuilder {
            target,
            ssh_config,
            agent_config: AgentConfig::default(),
            timeout: Duration::from_secs(30),
            max_streams: 100,
            bootstrap_agent: true,
        }
    }

    /// The target string.
    pub fn target(&self) -> (t: &str)
        ensures
            t@ == self.spec_target()@,
    {
        self.target.as_str()
    }

    /// The SSH configuration built so far.
    pub fn ssh_config(&self) -> (c: &SshConfig)
        ensures
            *c == self.spec_config().ssh_config,
    {
        &self.ssh_config
    }

    /// Sets the path of the identity file.
    pub fn with_key(self, key_path: String) -> (b: SessionBuilder)
        ensures
            b.spec_target() == self.spec_target(),
            b.spec_config() == (SessionConfig {
                ssh_config: SshConfig {
                    key_path: Some(key_path),
                    ..self.spec_config().ssh_config
                },
                ..self.spec_config()
            }),
    {
        let mut b = self;
        b.ssh_config.key_path = Some(key_path);
        b
    }

    /// Sets the connection timeout; `ssh` gets its whole seconds.
    pub fn with_timeout(self, timeout: Duration) -> (b: SessionBuilder)
        ensures
            b.spec_target() == self.spec_target(),
            b.spec_config().timeout == timeout,
            b.spec_config().ssh_config.connect_timeout as nat == duration_nanos(timeout)
                / NANOS_PER_SEC as nat,
            b.spec_config() == (SessionConfig {
                timeout,
                ssh_config: SshConfig {
                    connect_timeout: b.spec_config().ssh_config.connect_timeout,
                    ..self.spec_config().ssh_config
                },
                ..self.spec_config()
            }),
    {
        let mut b = self;
        b.ssh_config.connect_timeout = timeout.as_secs();
        b.timeout = timeout;
        b
    }

    /// Sets an option of `ssh`.
    pub fn with_ssh_option(self, key: String, value: String) -> (b: SessionBuilder)
        ensures
            b.spec_target() == self.spec_target(),
            b.spec_config().ssh_config.options@ == self.spec_config().ssh_config.options@.insert(
                key@,
                value@,
            ),
            b.spec_config() == (SessionConfig {
                ssh_config: SshConfig {
                    options: b.spec_config().ssh_config.options,
                    ..self.spec_config().ssh_config
                },
                ..self.spec_config()
            }),
    {
        let mut b = self;
        let _ = b.ssh_config.options.insert(key, value);
        b
    }

    /// Sets the path of the agent binary.
    pub fn with_agent_binary(self, path: String) -> (b: SessionBuilder)
        ensures
            b.spec_target() == self.spec_target(),
            b.spec_config() == (SessionConfig {
                agent_config: AgentConfig {
                    binary_path: Some(path),
                    ..self.spec_config().agent_config
                },
                ..self.spec_config()
            }),
    {
        let mut b = self;
        b.agent_config.binary_path = Some(path);
        b
    }

    /// Sets whether the agent is bootstrapped.
    pub fn with_bootstrap(self, bootstrap: bool) -> (b: SessionBuilder)
        ensures
            b.spec_target() == self.spec_target(),
            b.spec_config() == (SessionConfig {
                bootstrap_agent: bootstrap,
                ..self.spec_config()
            }),
    {
        let mut b = self;
        b.bootstrap_agent = bootstrap;
        b
    }

    /// Sets the largest number of concurrent streams.
    pub fn with_max_streams(self, max_streams: u32) -> (b: SessionBuilder)
        ensures
            b.spec_target() == self.spec_target(),
            b.spec_config() == (SessionConfig { max_streams, ..self.spec_config() }),
    {
        let mut b = self;
        b.max_streams = max_streams;
        b
    }

    /// Sets whether the hash of the agent binary is verified.
    pub fn with_hash_verification(self, verify: bool) -> (b: SessionBuilder)
        ensures
            b.spec_target() == self.spec_target(),
            b.spec_config() == (SessionConfig {
                agent_config: AgentConfig { verify_hash: verify,
                    ..self.spec_config().agent_config },
                ..self.spec_config()
            }),
    {
        let mut b = self;
        b.agent_config.verify_hash = verify;
        b
    }

    /// The configuration built.
    pub fn build_config(self) -> (c: SessionConfig)
        ensures
            c == self.spec_config(),
    {
        SessionConfig {
            ssh_config: self.ssh_config,
            agent_config: self.agent_config,
            timeout: self.timeout,
            max_streams: self.max_streams,
            bootstrap_agent: self.bootstrap_agent,
        }
    }

    /// The session for the target and the configuration built.
    pub fn build(self) -> (s: Session)
        ensures
            s.spec_target() == self.spec_target(),
            s.spec_config() == self.spec_config(),
    {
        let target = self.target;
        let config = SessionConfig {
            ssh_config: self.ssh_config,
            agent_config: self.agent_config,
            timeout: self.timeout,
            max_streams: self.max_streams,
            bootstrap_agent: self.bootstrap_agent,
        };
        Session::new(target, config)
    }
}

/// A session that is not yet connected.
#[derive(Debug)]
pub struct Session {
    target: String,
    config: SessionConfig,
}

impl Session {
    /// The target string.
    pub closed spec fn spec_target(&self) -> String {
        self.target
    }

    /// The configuration.
    pub closed spec fn spec_config(&self) -> SessionConfig {
        self.config
    }

    /// A builder for an SSH session to `target`.
    pub fn ssh(target: &str) -> (r: Result<SessionBuilder, MitoxideError>)
        ensures
            r matches Ok(b) && b.spec_target()@ == target@ && b.spec_config().ssh_config.username@
                == target_user(target@) && b.spec_config().ssh_config.host@ == target_host(target@)
                && b.spec_config().ssh_config.port == target_port(target@),
    {
        Ok(SessionBuilder::new(copy_str(target)))
    }

    /// A session for a target with a configuration.
    pub fn new(target: String, config: SessionConfig) -> (s: Session)
        ensures
            s.spec_target() == target,
            s.spec_config() == config,
    {
        Session { target, config }
    }

    /// The target string.
    pub fn target(&self) -> (t: &str)
        ensures
            t@ == self.spec_target()@,
    {
        self.target.as_str()
    }

    /// The configuration.
    pub fn config(&self) -> (c: &SessionConfig)
        ensures
            *c == self.spec_config(),
    {
        &self.config
    }

    /// The state in which the session starts to connect.
    pub fn begin(&self, session_id: RequestId) -> (s: SessionState)
        ensures
            s.id == session_id,
            s.target@ == self.spec_target()@,
            s.status is Connecting,
            s.agent_version is None,
            s.capabilities@ == Seq::<String>::empty(),
            s.connection_info is None,
    {
        SessionState::connecting(session_id, copy_str(self.target.as_str()))
    }

    /// The error for an agent binary that could not be read.
    pub fn agent_binary_unreadable(&self, cause: &str) -> (e: MitoxideError)
        ensures
            e matches MitoxideError::Agent(m) && m@ == "Failed to read agent binary: "@ + cause@,
    {
        MitoxideError::Agent(concat("Failed to read agent binary: ", cause))
    }
}

} // verus!
