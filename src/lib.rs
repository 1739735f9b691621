//! Turns requests to run shell commands into process invocations, and the
//! captured output of a finished child process into a structured result.
//!
//! Spawning the process is left to the embedding application: this crate
//! decides what to run and how to report what came back.

pub mod host;
pub mod invocation;
pub mod outcome;
pub mod text;

pub use host::get_system_info;
pub use invocation::{Invocation, PlatformFamily, ShellKind};
pub use outcome::{CommandResult, ProcessOutput};
