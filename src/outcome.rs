//! The result of one command invocation, built from what the operating
//! system reported about the finished child process.

use vstd::prelude::*;
use vstd::string::StringExecFns;
use vstd::utf8::{decode_utf8, valid_utf8};

use crate::invocation::{failure_prefix, ShellKind};
use crate::text::{decode_lossy, lossy_text};

verus! {

/// A child process's exit code reports success: it is zero, and there is one.
pub open spec fn exit_code_is_success(code: Option<i32>) -> bool {
    code == Some(0i32)
}

/// Raw output of a finished child process, as the process facility gives it.
pub struct ProcessOutput {
    pub stdout: Vec<u8>,
    pub stderr: Vec<u8>,
    /// `None` when the process ended without an exit code (killed by a signal).
    pub exit_code: Option<i32>,
}

/// What a caller learns from a command that was run.
pub struct CommandResult {
    pub success: bool,
    pub stdout: String,
    pub stderr: String,
    pub exit_code: Option<i32>,
}

impl CommandResult {
    /// `success` is exactly "the exit code is present and zero".
    pub open spec fn wf(&self) -> bool {
        self.success == exit_code_is_success(self.exit_code)
    }

    /// The result that reports already decoded output and an exit code.
    pub fn new(stdout: String, stderr: String, exit_code: Option<i32>) -> (r: CommandResult)
        ensures
            r.stdout@ == stdout@,
            r.stderr@ == stderr@,
            r.exit_code == exit_code,
            r.success == exit_code_is_success(exit_code),
            r.wf(),
    {
        let success = match exit_code {
            Some(c) => c == 0,
            None => false,
        };
        CommandResult { success, stdout, stderr, exit_code }
    }

    /// Decodes both captured streams, replacing invalid UTF-8, and records
    /// the exit code.
    pub fn from_output(output: &ProcessOutput) -> (r: CommandResult)
        ensures
            r.stdout@ == lossy_text(output.stdout@),
            r.stderr@ == lossy_text(output.stderr@),
            valid_utf8(output.stdout@) ==> r.stdout@ == decode_utf8(output.stdout@),
            valid_utf8(output.stderr@) ==> r.stderr@ == decode_utf8(output.stderr@),
            output.stdout@.len() > 0 ==> r.stdout@.len() > 0,
            output.stderr@.len() > 0 ==> r.stderr@.len() > 0,
            r.exit_code == output.exit_code,
            r.success == exit_code_is_success(output.exit_code),
            r.wf(),
    {
        let stdout = decode_lossy(output.stdout.as_slice());
        let stderr = decode_lossy(output.stderr.as_slice());
        CommandResult::new(stdout, stderr, output.exit_code)
    }
}

/// The message reported when the child process of `kind` could not be
/// started; `detail` is the operating system's description of the failure.
pub fn spawn_failure_message(kind: ShellKind, detail: &str) -> (r: String)
    ensures
        r@ == failure_prefix(kind) + detail@,
{
    let mut message = match kind {
        ShellKind::Native => String::from_str("Failed to execute command: "),
        ShellKind::Script => String::from_str("Failed to execute PowerShell command: "),
    };
    message.append(detail);
    message
}

/// Turns the outcome of spawning a child for `kind` into what the caller
/// receives: the decoded result when the process ran, whatever its exit
/// status, or the spawn failure message when it could not be started.
pub fn finish(kind: ShellKind, spawned: Result<ProcessOutput, String>) -> (r: Result<
    CommandResult,
    String,
>)
    ensures
        match spawned {
            Ok(output) => match r {
                Ok(res) => {
                    &&& res.stdout@ == lossy_text(output.stdout@)
                    &&& res.stderr@ == lossy_text(output.stderr@)
                    &&& valid_utf8(output.stdout@) ==> res.stdout@ == decode_utf8(output.stdout@)
                    &&& valid_utf8(output.stderr@) ==> res.stderr@ == decode_utf8(output.stderr@)
                    &&& output.stdout@.len() > 0 ==> res.stdout@.len() > 0
                    &&& output.stderr@.len() > 0 ==> res.stderr@.len() > 0
                    &&& res.exit_code == output.exit_code
                    &&& res.success == exit_code_is_success(output.exit_code)
                    &&& res.wf()
                },
                Err(_) => false,
            },
            Err(detail) => match r {
                Ok(_) => false,
                Err(message) => message@ == failure_prefix(kind) + detail@,
            },
        },
{
    match spawned {
        Ok(output) => Ok(CommandResult::from_output(&output)),
        Err(detail) => Err(spawn_failure_message(kind, detail.as_str())),
    }
}

/// A result that is well formed never reports success without a zero exit
/// code, reports failure when there is no exit code, and reports success
/// whenever the exit code is zero.
pub proof fn lemma_exit_code_agrees_with_success(r: CommandResult)
    requires
        r.wf(),
    ensures
        r.exit_code is None ==> !r.success,
        r.exit_code == Some(0i32) ==> r.success,
        r.success ==> r.exit_code == Some(0i32),
{
}

} // verus!
