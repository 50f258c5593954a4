//! The decision logic of the process launcher.
//!
//! The launcher itself — duplicating the process, replacing the child's
//! image, re-issuing the blocking wait — lives outside this library, next to
//! the rest of the I/O. What is verified here is everything the launcher
//! decides: how a raw wait status word is classified into a terminal status
//! (and when the wait loop must keep waiting), what the child reports when
//! image replacement fails, and with which status it then exits.
//!
//! The status word is taken as the raw 32-bit pattern the wait call fills
//! in. Its layout on Linux: the low seven bits carry the terminating signal
//! (all zero for a normal exit, all one for a stopped child), and bits 8–15
//! carry the exit code of a normal exit.

use vstd::prelude::*;

verus! {

/// The terminal status of one launched external command, as the dispatcher
/// consumes it. A non-zero exit or a death by signal is reported, never
/// escalated: none of these is a shell-level error.
#[derive(Clone, Copy, Debug, PartialEq, Eq, Structural)]
pub enum ChildProcessOutcome {
    /// The child exited of its own accord with this exit code (0–255).
    ExitedNormally(i32),
    /// The child was terminated by this signal (1–126).
    TerminatedBySignal(i32),
    /// No child ran at all: process duplication failed.
    LaunchFailed,
}

/// The status word says the child exited normally.
pub open spec fn status_exited(status: u32) -> bool {
    status & 0x7f == 0
}

/// The exit code carried by the status word of a normal exit.
pub open spec fn status_exit_code(status: u32) -> u32 {
    (status >> 8) & 0xff
}

/// The status word says the child was terminated by a signal: the signal
/// field is neither zero (a normal exit) nor all ones (a stopped, still
/// living child).
pub open spec fn status_signaled(status: u32) -> bool {
    status & 0x7f != 0 && status & 0x7f != 0x7f
}

/// The terminating signal carried by the status word.
pub open spec fn status_term_signal(status: u32) -> u32 {
    status & 0x7f
}

/// How one observed wait status is classified: a terminal status ends the
/// wait, `None` (a stopped or otherwise non-terminal child) means the wait
/// must be re-issued.
pub open spec fn classify_model(status: u32) -> Option<ChildProcessOutcome> {
    if status_exited(status) {
        Some(ChildProcessOutcome::ExitedNormally(status_exit_code(status) as i32))
    } else if status_signaled(status) {
        Some(ChildProcessOutcome::TerminatedBySignal(status_term_signal(status) as i32))
    } else {
        None
    }
}

/// Classifies one raw wait status word. The parent's wait loop stops
/// re-issuing the wait exactly when this returns `Some`: a stopped-without-
/// terminating report is never mistaken for completion.
pub fn classify_status(status: u32) -> (r: Option<ChildProcessOutcome>)
    ensures
        r == classify_model(status),
{
    let low = status & 0x7f;
    if low == 0 {
        let code = (status >> 8) & 0xff;
        proof {
            assert((status >> 8) & 0xff <= 0xff) by (bit_vector);
        }
        Some(ChildProcessOutcome::ExitedNormally(code as i32))
    } else if low != 0x7f {
        proof {
            assert(status & 0x7f <= 0x7f) by (bit_vector);
        }
        Some(ChildProcessOutcome::TerminatedBySignal(low as i32))
    } else {
        None
    }
}

/// The exit status of a child whose image replacement failed: a
/// distinguished non-zero code, so the failure is visible to the parent
/// while the shell itself keeps running.
pub const CHILD_LAUNCH_FAILURE_CODE: i32 = 1;

/// The line the child writes to the error stream when the named program
/// cannot be executed, before it terminates with
/// [`CHILD_LAUNCH_FAILURE_CODE`].
pub fn command_not_found_message(name: &str) -> (r: String)
    ensures
        r@ == "Command not found: "@ + name@,
{
    let mut message = String::new();
    message.append("Command not found: ");
    message.append(name);
    proof {
        assert(message@ =~= "Command not found: "@ + name@);
    }
    message
}

} // verus!
