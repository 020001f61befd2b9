//! Assembles the command line of a PowerShell invocation that reads its
//! script from standard input.

pub mod builder;
pub mod laws;
pub mod script;

pub use builder::{ExecutionPolicy, PsScriptBuilder};
pub use script::PsScript;
