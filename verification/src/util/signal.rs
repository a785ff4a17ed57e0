use vstd::prelude::*;

use crate::error::Error;

verus! {

/// What a reaped status word says about a task.
#[derive(Debug, Clone, Copy, PartialEq, Eq, Structural)]
pub enum WaitStatus {
    /// The task stopped; the field is the whole status word.
    Stopped(i32),
    /// The task exited; the field is its exit code.
    Exited(i32),
    /// The task was killed by a signal; the field is that signal.
    Signaled(i32),
    /// The task has no status to report: it is still running.
    Running,
}

/// The status word of a stopped task has `0x7f` in its low byte.
pub open spec fn is_stopped(status: i32) -> bool {
    (status & 0xff) == 0x7f
}

/// The signal that stopped the task: the second byte of the status word.
pub open spec fn stop_signal(status: i32) -> i32 {
    (status >> 8) & 0xff
}

/// The status word of a task that exited has zero in its low seven bits.
pub open spec fn is_exited(status: i32) -> bool {
    (status & 0x7f) == 0
}

/// The exit code: the second byte of the status word.
pub open spec fn exit_code(status: i32) -> i32 {
    (status >> 8) & 0xff
}

/// The status word of a task killed by a signal has that signal in its low
/// seven bits: neither zero (an exit) nor `0x7f` (a stop).
pub open spec fn is_signaled(status: i32) -> bool {
    (status & 0x7f) != 0 && (status & 0x7f) != 0x7f
}

/// The signal that killed the task: the low seven bits of the status word.
pub open spec fn term_signal(status: i32) -> i32 {
    status & 0x7f
}

/// `libc::WIFSTOPPED`: true exactly when the low byte of `status` is `0x7f`.
#[verifier::external_body]
fn wifstopped(status: i32) -> (stopped: bool)
    ensures
        stopped == is_stopped(status),
{
    libc::WIFSTOPPED(status)
}

/// `libc::WSTOPSIG`: bits 8 to 15 of `status`.
#[verifier::external_body]
pub(crate) fn wstopsig(status: i32) -> (signal: i32)
    ensures
        signal == stop_signal(status),
{
    libc::WSTOPSIG(status)
}

/// `libc::WIFEXITED`: true exactly when the low seven bits of `status` are
/// zero.
#[verifier::external_body]
fn wifexited(status: i32) -> (exited: bool)
    ensures
        exited == is_exited(status),
{
    libc::WIFEXITED(status)
}

/// `libc::WEXITSTATUS`: bits 8 to 15 of `status`.
#[verifier::external_body]
fn wexitstatus(status: i32) -> (code: i32)
    ensures
        code == exit_code(status),
{
    libc::WEXITSTATUS(status)
}

/// `libc::WIFSIGNALED`: true exactly when the low seven bits of `status`,
/// plus one and taken as a signed byte, are at least two, which is when they
/// are neither zero nor `0x7f`.
#[verifier::external_body]
fn wifsignaled(status: i32) -> (signaled: bool)
    ensures
        signaled == is_signaled(status),
{
    libc::WIFSIGNALED(status)
}

/// `libc::WTERMSIG`: the low seven bits of `status`.
#[verifier::external_body]
fn wtermsig(status: i32) -> (signal: i32)
    ensures
        signal == term_signal(status),
{
    libc::WTERMSIG(status)
}

/// What a status word decodes to. A stop is looked for first, then an exit,
/// then a kill. A status word that is none of the three (its low byte is
/// `0xff`) is reported as a failed kernel call.
pub open spec fn decode_status(status: i32) -> Result<WaitStatus, Error> {
    if is_stopped(status) {
        Ok(WaitStatus::Stopped(status))
    } else if is_exited(status) {
        Ok(WaitStatus::Exited(exit_code(status)))
    } else if is_signaled(status) {
        Ok(WaitStatus::Signaled(term_signal(status)))
    } else {
        Err(Error::KernelCallFailed)
    }
}

/// What a blocking reap that returned `res` and filled in `status` means.
pub open spec fn spec_wait(res: i32, status: i32) -> Result<WaitStatus, Error> {
    if res == -1 {
        Err(Error::KernelCallFailed)
    } else {
        decode_status(status)
    }
}

/// What a non-blocking reap that returned `res` and filled in `status`
/// means: zero says that the task had nothing to report.
pub open spec fn spec_wait_nonblock(res: i32, status: i32) -> Result<WaitStatus, Error> {
    if res == -1 {
        Err(Error::KernelCallFailed)
    } else if res == 0 {
        Ok(WaitStatus::Running)
    } else {
        decode_status(status)
    }
}

/// A stop, an exit and a kill exclude one another, and the only status
/// words that are none of them have `0xff` in their low byte.
pub proof fn lemma_status_is_classified(status: i32)
    ensures
        is_stopped(status) ==> !is_exited(status) && !is_signaled(status),
        is_exited(status) ==> !is_signaled(status),
        !is_stopped(status) && !is_exited(status) && !is_signaled(status) <==> (status & 0xff)
            == 0xff,
{
    assert((status & 0xff) == 0x7f ==> (status & 0x7f) == 0x7f) by (bit_vector);
    assert((status & 0xff) == 0xff ==> (status & 0x7f) == 0x7f) by (bit_vector);
    assert((status & 0x7f) == 0x7f ==> (status & 0xff) == 0x7f || (status & 0xff) == 0xff)
        by (bit_vector);
}

fn decode(status: i32) -> (r: Result<WaitStatus, Error>)
    ensures
        r == decode_status(status),
{
    if wifstopped(status) {
        Ok(WaitStatus::Stopped(status))
    } else if wifexited(status) {
        Ok(WaitStatus::Exited(wexitstatus(status)))
    } else if wifsignaled(status) {
        Ok(WaitStatus::Signaled(wtermsig(status)))
    } else {
        Err(Error::KernelCallFailed)
    }
}

/// Decodes the outcome of a blocking reap of one task: `res` is what the
/// wait call returned and `status` the status word it filled in.
///
/// A return of -1 is a failed kernel call, and so is a status word that is
/// neither a stop, an exit nor a kill. Anything else is decoded from the
/// status word.
pub fn wait(res: i32, status: i32) -> (r: Result<WaitStatus, Error>)
    ensures
        r == spec_wait(res, status),
{
    if res == -1 {
        return Err(Error::KernelCallFailed);
    }
    decode(status)
}

/// Decodes the outcome of a non-blocking reap of one task.
///
/// A return of -1 is a failed kernel call and a return of 0 means that the
/// task has not changed state. Anything else is decoded from the status
/// word as in `wait`.
pub fn wait_nonblock(res: i32, status: i32) -> (r: Result<WaitStatus, Error>)
    ensures
        r == spec_wait_nonblock(res, status),
{
    if res == -1 {
        return Err(Error::KernelCallFailed);
    }
    if res == 0 {
        return Ok(WaitStatus::Running);
    }
    decode(status)
}

} // verus!
