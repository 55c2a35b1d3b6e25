//! Errors of the WebAssembly sandbox.

use vstd::prelude::*;
use crate::text::concat;

verus! {

/// What can go wrong with a module.
#[derive(Debug)]
pub enum WasmError {
    /// The module could not be loaded.
    ModuleLoad(String),
    /// The module is not acceptable.
    ModuleValidation(String),
    /// The bytes are no module.
    InvalidFormat(String),
    /// The module needs a capability that is not offered.
    UnsupportedCapability(String),
    /// Running the module failed.
    Execution(String),
    /// Reading or writing failed.
    Io(String),
    /// The engine reported an error.
    Wasmtime(String),
}

impl WasmError {
    /// The text of the error.
    pub open spec fn text(self) -> Seq<char> {
        match self {
            WasmError::ModuleLoad(m) => "Module loading error: "@ + m@,
            WasmError::ModuleValidation(m) => "Module validation error: "@ + m@,
            WasmError::InvalidFormat(m) => "Invalid module format: "@ + m@,
            WasmError::UnsupportedCapability(m) => "Unsupported capability: "@ + m@,
            WasmError::Execution(m) => "Execution error: "@ + m@,
            WasmError::Io(m) => "I/O error: "@ + m@,
            WasmError::Wasmtime(m) => "Wasmtime error: "@ + m@,
        }
    }

    /// The text of the error, as a string.
    pub fn describe(&self) -> (s: String)
        ensures
            s@ == self.text(),
    {
        match self {
            WasmError::ModuleLoad(m) => concat("Module loading error: ", m.as_str()),
            WasmError::ModuleValidation(m) => concat("Module validation error: ", m.as_str()),
            WasmError::InvalidFormat(m) => concat("Invalid module format: ", m.as_str()),
            WasmError::UnsupportedCapability(m) => concat("Unsupported capability: ", m.as_str()),
            WasmError::Execution(m) => concat("Execution error: ", m.as_str()),
            WasmError::Io(m) => concat("I/O error: ", m.as_str()),
            WasmError::Wasmtime(m) => concat("Wasmtime error: ", m.as_str()),
        }
    }
}

} // verus!
