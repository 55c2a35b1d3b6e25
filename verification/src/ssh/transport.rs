//! The SSH subprocess transport: its configuration and its command line.

use vstd::prelude::*;
use crate::ssh::error::TransportError;
use crate::strmap::StringMap;
use crate::text::{
    concat, copy_str, decimal, decimal_string, occurs_in, push_copy, str_contains, texts,
};

verus! {

/// Token that a connection test echoes.
pub open spec fn connection_token() -> Seq<char> {
    "connection_test"@
}

/// Kinds of transport.
#[derive(Debug, Clone, Copy, PartialEq, Eq, Structural)]
pub enum TransportType {
    /// SSH by a subprocess.
    SshSubprocess,
    /// SSH by libssh2.
    SshLibssh2,
    /// A local process.
    Local,
}

/// Where a transport leads.
#[derive(Debug)]
pub struct ConnectionInfo {
    /// Remote host name or address.
    pub host: String,
    /// Remote port.
    pub port: u16,
    /// User name.
    pub username: String,
    /// Kind of transport.
    pub transport_type: TransportType,
}

impl Clone for ConnectionInfo {
    /// A copy, field by field.
    fn clone(&self) -> (r: ConnectionInfo)
        ensures
            r == *self,
    {
        ConnectionInfo {
            host: self.host.clone(),
            port: self.port,
            username: self.username.clone(),
            transport_type: self.transport_type,
        }
    }
}

/// SSH configuration.
#[derive(Debug)]
pub struct SshConfig {
    /// Remote host name or address.
    pub host: String,
    /// Remote port.
    pub port: u16,
    /// User name.
    pub username: String,
    /// Path of the identity file.
    pub key_path: Option<String>,
    /// Options passed as `-o KEY=VALUE`.
    pub options: StringMap,
    /// Connection timeout in seconds.
    pub connect_timeout: u64,
    /// Command timeout in seconds.
    pub command_timeout: u64,
}

impl SshConfig {
    /// Two configurations say the same.
    pub open spec fn same_as(self, other: SshConfig) -> bool {
        &&& self.host@ == other.host@
        &&& self.port == other.port
        &&& self.username@ == other.username@
        &&& match (self.key_path, other.key_path) {
            (Some(a), Some(b)) => a@ == b@,
            (None, None) => true,
            _ => false,
        }
        &&& self.options@ == other.options@
        &&& self.options.keys() == other.options.keys()
        &&& self.connect_timeout == other.connect_timeout
        &&& self.command_timeout == other.command_timeout
    }
}

impl Default for SshConfig {
    /// `root@localhost`, port 22, no key, no options, 30 seconds to connect
    /// and 300 for a command.
    fn default() -> (c: SshConfig)
        ensures
            c.host@ == "localhost"@,
            c.port == 22,
            c.username@ == "root"@,
            c.key_path is None,
            c.options@ == Map::<Seq<char>, Seq<char>>::empty(),
            c.options.keys() == Seq::<Seq<char>>::empty(),
            c.connect_timeout == 30,
            c.command_timeout == 300,
    {
        SshConfig {
            host: copy_str("localhost"),
            port: 22,
            username: copy_str("root"),
            key_path: None,
            options: StringMap::new(),
            connect_timeout: 30,
            command_timeout: 300,
        }
    }
}

impl Clone for SshConfig {
    /// A copy that says the same.
    fn clone(&self) -> (r: SshConfig)
        ensures
            r.same_as(*self),
    {
        SshConfig {
            host: self.host.clone(),
            port: self.port,
            username: self.username.clone(),
            key_path: match &self.key_path {
                Some(k) => Some(k.clone()),
                None => None,
            },
            options: self.options.clone(),
            connect_timeout: self.connect_timeout,
            command_timeout: self.command_timeout,
        }
    }
}

/// `-o KEY=VALUE` for each of the first `n` options, in order.
pub open spec fn option_args(keys: Seq<Seq<char>>, options: Map<Seq<char>, Seq<char>>, n: int)
    -> Seq<Seq<char>>
    decreases n,
{
    if n <= 0 {
        Seq::<Seq<char>>::empty()
    } else {
        option_args(keys, options, n - 1) + seq![
            "-o"@,
            keys[n - 1] + "="@ + options[keys[n - 1]],
        ]
    }
}

/// The arguments of `ssh` for a configuration: batch mode, no strict host
/// key checking, the connect timeout, the port, the identity file if there
/// is one, the options, and the target `user@host`.
pub open spec fn ssh_args(config: SshConfig) -> Seq<Seq<char>> {
    seq![
        "-o"@,
        "BatchMode=yes"@,
        "-o"@,
        "StrictHostKeyChecking=no"@,
        "-o"@,
        "ConnectTimeout="@ + decimal(config.connect_timeout as nat),
        "-p"@,
        decimal(config.port as nat),
    ] + (match config.key_path {
        Some(k) => seq!["-i"@, k@],
        None => Seq::<Seq<char>>::empty(),
    }) + option_args(config.options.keys(), config.options@, config.options.keys().len() as int)
        + seq![config.username@ + "@"@ + config.host@]
}

/// SSH transport over the standard streams of an `ssh` subprocess.
#[derive(Debug)]
pub struct StdioTransport {
    config: SshConfig,
    connected: bool,
}

impl StdioTransport {
    /// The configuration.
    pub closed spec fn config(&self) -> SshConfig {
        self.config
    }

    /// Whether a session was started.
    pub closed spec fn connected(&self) -> bool {
        self.connected
    }

    /// A transport that is not connected.
    pub fn new(config: SshConfig) -> (t: StdioTransport)
        ensures
            t.config() == config,
            !t.connected(),
    {
        StdioTransport { config, connected: false }
    }

    /// Whether a session was started.
    pub fn is_connected(&self) -> (r: bool)
        ensures
            r == self.connected(),
    {
        self.connected
    }

    /// Notes that a session was started.
    pub fn mark_connected(&mut self)
        ensures
            final(self).connected(),
            final(self).config() == old(self).config(),
    {
        self.connected = true;
    }

    /// The arguments of `ssh` for this transport.
    pub fn build_ssh_args(&self) -> (args: Vec<String>)
        ensures
            texts(args@) == ssh_args(self.config()),
    {
        let mut args: Vec<String> = Vec::new();
        assert(texts(args@) =~= Seq::<Seq<char>>::empty());
        push_copy(&mut args, "-o");
        push_copy(&mut args, "BatchMode=yes");
        push_copy(&mut args, "-o");
        push_copy(&mut args, "StrictHostKeyChecking=no");
        push_copy(&mut args, "-o");
        let timeout = concat(
            "ConnectTimeout=",
            decimal_string(self.config.connect_timeout).as_str(),
        );
        push_copy(&mut args, timeout.as_str());
        push_copy(&mut args, "-p");
        push_copy(&mut args, decimal_string(self.config.port as u64).as_str());
        if let Some(key_path) = &self.config.key_path {
            push_copy(&mut args, "-i");
            push_copy(&mut args, key_path.as_str());
        }
        let ghost head = texts(args@);
        let ghost keys = self.config.options.keys();
        let ghost options = self.config.options@;
        let n: usize = self.config.options.len();
        let mut i: usize = 0;
        while i < n
            invariant
                i <= n,
                n == keys.len(),
                keys == self.config.options.keys(),
                options == self.config.options@,
                texts(args@) == head + option_args(keys, options, i as int),
            decreases n - i,
        {
            let key = self.config.options.key_at(i);
            let value = self.config.options.value_at(i);
            let a = concat(key.as_str(), "=");
            let b = concat(a.as_str(), value.as_str());
            push_copy(&mut args, "-o");
            push_copy(&mut args, b.as_str());
            assert(texts(args@) =~= head + option_args(keys, options, i + 1));
            i = i + 1;
        }
        let a = concat(self.config.username.as_str(), "@");
        let target = concat(a.as_str(), self.config.host.as_str());
        push_copy(&mut args, target.as_str());
        assert(texts(args@) =~= ssh_args(self.config));
        args
    }

    /// The arguments of `ssh` for running `command` on the remote host.
    pub fn command_args(&self, command: &str) -> (args: Vec<String>)
        ensures
            texts(args@) == ssh_args(self.config()).push(command@),
    {
        let mut args = self.build_ssh_args();
        push_copy(&mut args, command);
        args
    }

    /// Where the transport leads.
    pub fn connection_info(&self) -> (info: ConnectionInfo)
        ensures
            info == (ConnectionInfo {
                host: self.config().host,
                port: self.config().port,
                username: self.config().username,
                transport_type: TransportType::SshSubprocess,
            }),
    {
        ConnectionInfo {
            host: self.config.host.clone(),
            port: self.config.port,
            username: self.config.username.clone(),
            transport_type: TransportType::SshSubprocess,
        }
    }

    /// What the output of the connection test says: the test passed if the
    /// token that was echoed is in the output.
    pub fn check_connection_test(&self, output: &str) -> (r: Result<(), TransportError>)
        ensures
            occurs_in(output@, connection_token()) ==> r is Ok,
            !occurs_in(output@, connection_token()) ==> (r matches Err(
                TransportError::Connection(m),
            ) && m@ == "Connection test failed"@),
    {
        if str_contains(output, "connection_test") {
            Ok(())
        } else {
            Err(TransportError::Connection(copy_str("Connection test failed")))
        }
    }

    /// The error for an `ssh` that could not be run.
    pub fn execution_failed(&self, cause: &str) -> (e: TransportError)
        ensures
            e matches TransportError::Connection(m) && m@ == "Failed to execute SSH: "@ + cause@,
    {
        TransportError::Connection(concat("Failed to execute SSH: ", cause))
    }

    /// The error for a remote command that failed.
    pub fn command_failed(&self, stderr: &str) -> (e: TransportError)
        ensures
            e matches TransportError::Connection(m) && m@ == "SSH command failed: "@ + stderr@,
    {
        TransportError::Connection(concat("SSH command failed: ", stderr))
    }

    /// The error for a bootstrap that failed on the remote host.
    pub fn bootstrap_failed(&self, stderr: &str) -> (e: TransportError)
        ensures
            e matches TransportError::Bootstrap(m) && m@ == "Agent bootstrap failed: "@ + stderr@,
    {
        TransportError::Bootstrap(concat("Agent bootstrap failed: ", stderr))
    }
}

} // verus!
