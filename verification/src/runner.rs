//! Classifying what an invocation of the collector produced: the two-tier
//! fallback from the interpreter to the standalone binary, and the outcome
//! each tier decides.

use vstd::prelude::*;
use vstd::string::StringExecFns;
use vstd::utf8::{valid_utf8, decode_utf8};
use crate::strutil::{has_substr, substr_at};

verus! {

/// What one invocation of the collector program produced.
pub struct ProcOutput {
    pub status_ok: bool,
    pub stdout: Vec<u8>,
    pub stderr: Vec<u8>,
}

/// The result of one run: the captured output, or a diagnostic.
#[derive(Clone, Debug)]
pub enum TaskOutcome {
    Success { raw_output: String },
    Failure { message: String },
}

/// What the interpreter tier decided: a final outcome, or fall back to the
/// standalone binary.
pub enum InterpreterVerdict {
    Done(TaskOutcome),
    TryBinary,
}

/// How far the binary tier got: the path could not be resolved, the process
/// could not be started, or it ran to completion.
pub enum BinaryAttempt {
    NotResolved { message: String },
    SpawnFailed { error: String },
    Ran { output: ProcOutput },
}

/// Relies on std's String::from_utf8: `Some` exactly when the bytes are valid
/// UTF-8, and then the string holds their decoding.
#[verifier::external_body]
fn decode_bytes(b: Vec<u8>) -> (r: Option<String>)
    ensures
        r is Some <==> valid_utf8(b@),
        r is Some ==> r->Some_0@ == decode_utf8(b@),
{
    String::from_utf8(b).ok()
}

/// The diagnostic when captured output is not valid text.
pub open spec fn spec_decode_failure_msg() -> Seq<char> {
    "the collector program output is not valid text"@
}

/// The diagnostic when the binary process could not be started.
pub open spec fn spec_spawn_failure_msg(e: Seq<char>) -> Seq<char> {
    "failed to start the collector program: "@ + e
}

/// The diagnostic carried by a non-zero exit of the binary tier: it wraps what
/// the program wrote to standard error.
pub open spec fn spec_binary_failure_msg(stderr: Seq<u8>) -> Seq<char> {
    "the collector program failed: "@ + (if valid_utf8(stderr) {
        decode_utf8(stderr)
    } else {
        "unknown error"@
    })
}

/// A doubly failed run's diagnostic embeds the binary tier's own words: what
/// that run wrote to standard error stands inside the reported message, which
/// is built from the binary run alone.
pub proof fn lemma_binary_error_is_reported(stderr: Seq<u8>)
    requires
        valid_utf8(stderr),
    ensures
        has_substr(spec_binary_failure_msg(stderr), decode_utf8(stderr)),
{
    let msg = spec_binary_failure_msg(stderr);
    let p = decode_utf8(stderr);
    let i = "the collector program failed: "@.len() as int;
    assert(substr_at(msg, p, i)) by {
        assert(msg.subrange(i, i + p.len() as int) =~= p);
    }
}

fn stderr_text(stderr: Vec<u8>) -> (r: String)
    ensures
        r@ == if valid_utf8(stderr@) {
            decode_utf8(stderr@)
        } else {
            "unknown error"@
        },
{
    match decode_bytes(stderr) {
        Some(s) => s,
        None => String::from_str("unknown error"),
    }
}

/// What the interpreter tier decides. A successful exit ends the run with the
/// decoded output, or with a decoding failure when the bytes are not text; a
/// non-zero exit, like an absent interpreter or script, defers to the binary.
pub fn interpreter_verdict(run: Option<ProcOutput>) -> (r: InterpreterVerdict)
    ensures
        match run {
            None => r is TryBinary,
            Some(o) => {
                if o.status_ok {
                    if valid_utf8(o.stdout@) {
                        r matches InterpreterVerdict::Done(
                            TaskOutcome::Success { raw_output },
                        ) && raw_output@ == decode_utf8(o.stdout@)
                    } else {
                        r matches InterpreterVerdict::Done(
                            TaskOutcome::Failure { message },
                        ) && message@ == spec_decode_failure_msg()
                    }
                } else {
                    r is TryBinary
                }
            },
        },
{
    match run {
        None => InterpreterVerdict::TryBinary,
        Some(o) => {
            if o.status_ok {
                match decode_bytes(o.stdout) {
                    Some(s) => InterpreterVerdict::Done(TaskOutcome::Success { raw_output: s }),
                    None => InterpreterVerdict::Done(
                        TaskOutcome::Failure {
                            message: String::from_str(
                                "the collector program output is not valid text",
                            ),
                        },
                    ),
                }
            } else {
                InterpreterVerdict::TryBinary
            }
        },
    }
}

/// What the binary tier decides; its diagnostic, not the interpreter tier's, is
/// what a doubly failed run reports. A resolution failure keeps its own
/// message; a spawn failure and a non-zero exit are wrapped; a successful exit
/// ends with the decoded output or a decoding failure.
pub fn binary_verdict(attempt: BinaryAttempt) -> (r: TaskOutcome)
    ensures
        match attempt {
            BinaryAttempt::NotResolved { message } => r matches TaskOutcome::Failure {
                message: m,
            } && m == message,
            BinaryAttempt::SpawnFailed { error } => r matches TaskOutcome::Failure { message: m }
                && m@ == spec_spawn_failure_msg(error@),
            BinaryAttempt::Ran { output } => {
                if output.status_ok {
                    if valid_utf8(output.stdout@) {
                        r matches TaskOutcome::Success { raw_output } && raw_output@
                            == decode_utf8(output.stdout@)
                    } else {
                        r matches TaskOutcome::Failure { message } && message@
                            == spec_decode_failure_msg()
                    }
                } else {
                    r matches TaskOutcome::Failure { message } && message@
                        == spec_binary_failure_msg(output.stderr@)
                }
            },
        },
{
    match attempt {
        BinaryAttempt::NotResolved { message } => TaskOutcome::Failure { message },
        BinaryAttempt::SpawnFailed { error } => {
            let mut m = String::from_str("failed to start the collector program: ");
            m.append(error.as_str());
            proof {
                assert(m@ =~= spec_spawn_failure_msg(error@));
            }
            TaskOutcome::Failure { message: m }
        },
        BinaryAttempt::Ran { output } => {
            if output.status_ok {
                match decode_bytes(output.stdout) {
                    Some(s) => TaskOutcome::Success { raw_output: s },
                    None => TaskOutcome::Failure {
                        message: String::from_str(
                            "the collector program output is not valid text",
                        ),
                    },
                }
            } else {
                let mut m = String::from_str("the collector program failed: ");
                m.append(stderr_text(output.stderr).as_str());
                proof {
                    assert(m@ =~= spec_binary_failure_msg(output.stderr@));
                }
                TaskOutcome::Failure { message: m }
            }
        },
    }
}

} // verus!
