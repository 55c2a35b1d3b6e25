//! The WebAssembly sandbox: module loading, capabilities and execution rules.

pub mod error;
pub mod module;
pub mod runtime;
pub mod test_utils;
