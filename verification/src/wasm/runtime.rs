//! Execution rules of the sandbox: limits, entry points and how a run ends.

use vstd::prelude::*;
use std::time::Duration;
use crate::strmap::StringMap;
use crate::text::{concat, copy_str};
use crate::time::{duration_nanos, NANOS_PER_SEC};
use crate::wasm::error::WasmError;
use crate::wasm::module::WasmModule;

verus! {

/// Largest stack of a running module: 1 MiB.
pub const MAX_WASM_STACK: usize = 1024 * 1024;

/// What a module is run with.
#[derive(Debug)]
pub struct WasmContext {
    env: StringMap,
    cwd: Option<String>,
}

impl WasmContext {
    /// The environment variables.
    pub closed spec fn spec_env(&self) -> StringMap {
        self.env
    }

    /// The working directory.
    pub closed spec fn spec_cwd(&self) -> Option<String> {
        self.cwd
    }

    /// A context without environment and working directory.
    pub fn new() -> (c: WasmContext)
        ensures
            c.spec_env()@ == Map::<Seq<char>, Seq<char>>::empty(),
            c.spec_cwd() is None,
    {
        WasmContext { env: StringMap::new(), cwd: None }
    }

    /// The context with these environment variables.
    pub fn with_env(self, env: StringMap) -> (c: WasmContext)
        ensures
            c.spec_env() == env,
            c.spec_cwd() == self.spec_cwd(),
    {
        WasmContext { env, cwd: self.cwd }
    }

    /// The context with this working directory.
    pub fn with_cwd(self, cwd: &str) -> (c: WasmContext)
        ensures
            c.spec_env() == self.spec_env(),
            c.spec_cwd() matches Some(d) && d@ == cwd@,
    {
        WasmContext { env: self.env, cwd: Some(copy_str(cwd)) }
    }

    /// The environment variables.
    pub fn env(&self) -> (e: &StringMap)
        ensures
            *e == self.spec_env(),
    {
        &self.env
    }

    /// The working directory.
    pub fn cwd(&self) -> (d: &Option<String>)
        ensures
            *d == self.spec_cwd(),
    {
        &self.cwd
    }
}

impl Default for WasmContext {
    /// A context without environment and working directory.
    fn default() -> (c: WasmContext)
        ensures
            c.spec_env()@ == Map::<Seq<char>, Seq<char>>::empty(),
            c.spec_cwd() is None,
    {
        WasmContext::new()
    }
}

/// Limits and permissions of a run.
#[derive(Debug, Clone)]
pub struct WasmConfig {
    /// Largest memory in bytes.
    pub max_memory: u64,
    /// Longest run.
    pub max_execution_time: Duration,
    /// Fuel: the number of instructions that a run may execute.
    pub max_fuel: Option<u64>,
    /// Whether WASI modules get a WASI environment.
    pub enable_wasi: bool,
    /// Whether the network may be used.
    pub allow_network: bool,
    /// Whether the file system may be used.
    pub allow_filesystem: bool,
}

impl Default for WasmConfig {
    /// 64 MiB of memory, 30 seconds, a million instructions, WASI on,
    /// network and file system off.
    fn default() -> (c: WasmConfig)
        ensures
            c.max_memory == 64 * 1024 * 1024,
            duration_nanos(c.max_execution_time) == 30 * NANOS_PER_SEC as nat,
            c.max_fuel == Some(1_000_000u64),
            c.enable_wasi,
            !c.allow_network,
            !c.allow_filesystem,
    {
        WasmConfig {
            max_memory: 64 * 1024 * 1024,
            max_execution_time: Duration::from_secs(30),
            max_fuel: Some(1_000_000),
            enable_wasi: true,
            allow_network: false,
            allow_filesystem: false,
        }
    }
}

/// The export that a run starts at.
#[derive(Debug, Clone, Copy, PartialEq, Eq, Structural)]
pub enum EntryPoint {
    /// `_start`, with a WASI environment.
    Start,
    /// `main`, without arguments.
    Main,
}

/// How a run ended.
#[derive(Debug)]
pub enum ExecOutcome {
    /// The entry point returned; the module wrote this to standard output.
    Completed {
        /// What the module wrote to standard output.
        stdout: String,
    },
    /// The run failed with this message.
    Trapped(String),
    /// The time limit expired first.
    TimedOut,
    /// The module does not export the entry point.
    NoEntryPoint,
}

/// The rules by which modules are run.
#[derive(Debug)]
pub struct WasmRuntime {
    config: WasmConfig,
}

impl WasmRuntime {
    /// The configuration.
    pub closed spec fn spec_config(&self) -> WasmConfig {
        self.config
    }

    /// A runtime with the default configuration.
    pub fn new() -> (r: Result<WasmRuntime, WasmError>)
        ensures
            r matches Ok(rt) && rt.spec_config().max_memory == 64 * 1024 * 1024
                && rt.spec_config().max_fuel == Some(1_000_000u64) && rt.spec_config().enable_wasi
                && !rt.spec_config().allow_network && !rt.spec_config().allow_filesystem
                && duration_nanos(rt.spec_config().max_execution_time) == 30 * NANOS_PER_SEC as nat,
    {
        WasmRuntime::with_config(WasmConfig::default())
    }

    /// A runtime with this configuration.
    pub fn with_config(config: WasmConfig) -> (r: Result<WasmRuntime, WasmError>)
        ensures
            r matches Ok(rt) && rt.spec_config() == config,
    {
        Ok(WasmRuntime { config })
    }

    /// The configuration.
    pub fn config(&self) -> (c: &WasmConfig)
        ensures
            *c == self.spec_config(),
    {
        &self.config
    }

    /// Whether runs count fuel.
    pub fn uses_fuel(&self) -> (r: bool)
        ensures
            r == self.spec_config().max_fuel is Some,
    {
        self.config.max_fuel.is_some()
    }

    /// Where a run of `module` starts: at `_start` for a WASI module when
    /// WASI is enabled, else at `main`.
    pub fn entry_point(&self, module: &WasmModule) -> (e: EntryPoint)
        ensures
            e == (if self.spec_config().enable_wasi && module.metadata.is_wasi {
                EntryPoint::Start
            } else {
                EntryPoint::Main
            }),
    {
        if self.config.enable_wasi && module.is_wasi() {
            EntryPoint::Start
        } else {
            EntryPoint::Main
        }
    }

    /// The result of a run from how it ended.
    ///
    /// A run that completed gives what the module wrote to standard output.
    /// A failed run, an expired time limit and a missing entry point are
    /// execution errors.
    pub fn conclude(&self, outcome: ExecOutcome) -> (r: Result<String, WasmError>)
        ensures
            match outcome {
                ExecOutcome::Completed { stdout } => r == Ok::<String, WasmError>(stdout),
                ExecOutcome::Trapped(m) => r matches Err(WasmError::Execution(t)) && t@
                    == "WASM execution failed: "@ + m@,
                ExecOutcome::TimedOut => r matches Err(WasmError::Execution(t)) && t@
                    == "WASM execution timed out"@,
                ExecOutcome::NoEntryPoint => r matches Err(WasmError::Execution(t)) && t@
                    == "no suitable entry point"@,
            },
    {
        match outcome {
            ExecOutcome::Completed { stdout } => Ok(stdout),
            ExecOutcome::Trapped(m) => Err(
                WasmError::Execution(concat("WASM execution failed: ", m.as_str())),
            ),
            ExecOutcome::TimedOut => Err(WasmError::Execution(copy_str("WASM execution timed out"))),
            ExecOutcome::NoEntryPoint => Err(
                WasmError::Execution(copy_str("no suitable entry point")),
            ),
        }
    }

    /// The error for an input that could not be written as JSON.
    pub fn json_input_error(&self, cause: &str) -> (e: WasmError)
        ensures
            e matches WasmError::Execution(t) && t@ == "Failed to serialize input: "@ + cause@,
    {
        WasmError::Execution(concat("Failed to serialize input: ", cause))
    }

    /// The error for an output that could not be read as JSON.
    pub fn json_output_error(&self, cause: &str) -> (e: WasmError)
        ensures
            e matches WasmError::Execution(t) && t@ == "Failed to deserialize output: "@ + cause@,
    {
        WasmError::Execution(concat("Failed to deserialize output: ", cause))
    }
}

} // verus!
