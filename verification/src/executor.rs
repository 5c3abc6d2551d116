//! What the command executor reports.
//!
//! Running a process is left to the caller. This module says what is kept of
//! what the process wrote, and how the ways a run can end are told apart.

use vstd::prelude::*;
use vstd::string::StringExecFns;
use crate::text::{decimal, decimal_of, from_chars, slice, to_chars};

verus! {

/// The number of characters kept of each output stream.
pub const OUTPUT_LIMIT: usize = 2000;

/// The seconds granted to a command that a human approved.
pub const DEFAULT_TIMEOUT_SECS: u64 = 30;

/// `text` cut down to `limit` characters: a longer text keeps its first
/// `limit` characters, followed by a marker that gives its true length.
pub open spec fn capped(text: Seq<char>, limit: nat) -> Seq<char> {
    if text.len() > limit {
        text.take(limit as int) + "...[output truncated, "@ + decimal_of(text.len())
            + " total chars]"@
    } else {
        text
    }
}

/// `text` cut down to `limit` characters.
pub fn cap_output(text: &str, limit: usize) -> (r: String)
    ensures
        r@ == capped(text@, limit as nat),
{
    let v = to_chars(text);
    if v.len() > limit {
        let mut out = from_chars(&slice(&v, 0, limit));
        assert(v@.subrange(0, limit as int) == v@.take(limit as int));
        out.append("...[output truncated, ");
        let digits = from_chars(&decimal(v.len() as u128));
        out.append(digits.as_str());
        out.append(" total chars]");
        out
    } else {
        from_chars(&v)
    }
}

/// What a finished command left behind.
#[derive(Debug)]
pub struct ExecutionResult {
    pub stdout: String,
    pub stderr: String,
    pub exit_code: i32,
    pub success: bool,
    pub elapsed_ms: u64,
}

/// Why a command has no result.
#[derive(Debug)]
pub enum ExecError {
    /// The command was still running when its time was up, and was abandoned.
    Timeout,
    /// No process could be started; the text says why.
    Spawn(String),
}

/// How a run ended, as the caller saw it.
pub enum RunEnd {
    /// The process exited. `code` is none where a signal ended it.
    Exited { stdout: String, stderr: String, code: Option<i32>, elapsed_ms: u64 },
    /// The time was up before the process exited.
    TimedOut,
    /// The process did not start.
    NotStarted(String),
}

/// The exit code reported for a process that gave none.
pub const NO_EXIT_CODE: i32 = -1;

/// The result of a run that exited: both streams capped at `OUTPUT_LIMIT`,
/// and success exactly for exit code 0.
pub open spec fn result_matches(
    r: ExecutionResult,
    stdout: Seq<char>,
    stderr: Seq<char>,
    code: Option<i32>,
    elapsed_ms: u64,
) -> bool {
    &&& r.stdout@ == capped(stdout, OUTPUT_LIMIT as nat)
    &&& r.stderr@ == capped(stderr, OUTPUT_LIMIT as nat)
    &&& r.exit_code == match code {
        Some(c) => c,
        None => NO_EXIT_CODE,
    }
    &&& r.success == (code == Some(0i32))
    &&& r.elapsed_ms == elapsed_ms
}

/// What is reported for a run: a result for a process that exited, whatever
/// its exit code, and an error of its own kind for one that timed out and for
/// one that did not start. A timeout is never reported as a result.
pub fn conclude(end: RunEnd) -> (r: Result<ExecutionResult, ExecError>)
    ensures
        match end {
            RunEnd::Exited { stdout, stderr, code, elapsed_ms } => r is Ok && result_matches(
                r->Ok_0,
                stdout@,
                stderr@,
                code,
                elapsed_ms,
            ),
            RunEnd::TimedOut => r is Err && r->Err_0 is Timeout,
            RunEnd::NotStarted(why) => r is Err && r->Err_0 is Spawn && r->Err_0->Spawn_0@ == why@,
        },
{
    match end {
        RunEnd::Exited { stdout, stderr, code, elapsed_ms } => {
            let exit_code = match code {
                Some(c) => c,
                None => NO_EXIT_CODE,
            };
            let success = match code {
                Some(c) => c == 0,
                None => false,
            };
            Ok(
                ExecutionResult {
                    stdout: cap_output(stdout.as_str(), OUTPUT_LIMIT),
                    stderr: cap_output(stderr.as_str(), OUTPUT_LIMIT),
                    exit_code,
                    success,
                    elapsed_ms,
                },
            )
        },
        RunEnd::TimedOut => Err(ExecError::Timeout),
        RunEnd::NotStarted(why) => Err(ExecError::Spawn(why)),
    }
}

} // verus!
