use vstd::prelude::*;

use crate::error::Error;
use crate::registers::Registers;
use crate::util::ptrace::Request;
use crate::util::signal::{spec_wait, spec_wait_nonblock, WaitStatus};

verus! {

/// Where a traced task stands in the tracing protocol.
#[derive(Debug, Clone, Copy, PartialEq, Eq, Structural)]
pub enum ThreadState {
    /// Seized and running; it may be interrupted.
    Running,
    /// Stopped outside the tracer's control.
    Stopped,
    /// Reaped after an exit or a killing signal.
    Exited,
    /// Stopped under the tracer: registers and debug registers may be
    /// touched, and the task may be continued.
    Tracing,
    /// Not traced.
    Detached,
}

/// One traced task: who it is and where it stands.
///
/// The record does not talk to the kernel. Each operation checks that the
/// task is in a state that allows it, says which kernel request carries it
/// out, and moves the record to the state that the request leads to.
#[derive(Debug, Clone, PartialEq, Eq)]
pub struct Thread {
    pub pid: u32,
    pub name: String,
    pub state: ThreadState,
}

/// Tells whether `c` is white space: one of the characters with the Unicode
/// property `White_Space`.
pub open spec fn is_white_space(c: char) -> bool {
    let code = c as u32;
    ||| 0x09 <= code <= 0x0d
    ||| code == 0x20
    ||| code == 0x85
    ||| code == 0xa0
    ||| code == 0x1680
    ||| 0x2000 <= code <= 0x200a
    ||| code == 0x2028
    ||| code == 0x2029
    ||| code == 0x202f
    ||| code == 0x205f
    ||| code == 0x3000
}

/// The text without the white space at its start.
pub open spec fn trimmed_start(text: Seq<char>) -> Seq<char>
    decreases text.len(),
{
    if text.len() > 0 && is_white_space(text.first()) {
        trimmed_start(text.drop_first())
    } else {
        text
    }
}

/// The text without the white space at its end.
pub open spec fn trimmed_end(text: Seq<char>) -> Seq<char>
    decreases text.len(),
{
    if text.len() > 0 && is_white_space(text.last()) {
        trimmed_end(text.drop_last())
    } else {
        text
    }
}

/// The text without the white space around it.
pub open spec fn trimmed(text: Seq<char>) -> Seq<char> {
    trimmed_end(trimmed_start(text))
}

/// `str::trim`, then `str::to_string`: the text without its leading and
/// trailing white space, as an owned string. White space is what Unicode
/// gives the property `White_Space`.
#[verifier::external_body]
fn trim(comm: &str) -> (name: String)
    ensures
        name@ == trimmed(comm@),
{
    comm.trim().to_string()
}

/// The state that a reaped status leaves a task in: a stop puts it under the
/// tracer, an exit or a killing signal ends it, and no status at all leaves
/// it in the state `before`.
pub open spec fn state_after(before: ThreadState, status: WaitStatus) -> ThreadState {
    match status {
        WaitStatus::Stopped(_) => ThreadState::Tracing,
        WaitStatus::Exited(_) => ThreadState::Exited,
        WaitStatus::Signaled(_) => ThreadState::Exited,
        WaitStatus::Running => before,
    }
}

impl Thread {
    /// A record for task `pid`, not yet traced. `comm` is the content of the
    /// task's `comm` file; the name is that text without the white space
    /// around it.
    pub fn new(pid: u32, comm: &str) -> (thread: Thread)
        ensures
            thread.pid == pid,
            thread.name@ == trimmed(comm@),
            thread.state == ThreadState::Detached,
    {
        Thread { pid, name: trim(comm), state: ThreadState::Detached }
    }

    /// The record with another state and the same identity.
    pub open spec fn with_state(self, state: ThreadState) -> Thread {
        Thread { pid: self.pid, name: self.name, state }
    }

    /// Seizes the task: it is traced from now on, and keeps running.
    pub fn attach(&mut self) -> (request: Request)
        ensures
            request == (Request::Seize { pid: old(self).pid }),
            *final(self) == old(self).with_state(ThreadState::Running),
    {
        self.state = ThreadState::Running;
        Request::Seize { pid: self.pid }
    }

    /// Sets the tracer's option bits. The task must be stopped under the
    /// tracer.
    pub fn set_options(&self, options: i32) -> (r: Result<Request, Error>)
        ensures
            self.state == ThreadState::Tracing ==> r == Ok::<Request, Error>(
                Request::SetOptions { pid: self.pid, options },
            ),
            self.state != ThreadState::Tracing ==> r == Err::<Request, Error>(
                Error::ProtocolMisuse,
            ),
    {
        if !self.is_traced() {
            return Err(Error::ProtocolMisuse);
        }
        Ok(Request::SetOptions { pid: self.pid, options })
    }

    /// Stops tracing the task, whatever state it is in.
    pub fn detach(&mut self) -> (request: Request)
        ensures
            request == (Request::Detach { pid: old(self).pid }),
            *final(self) == old(self).with_state(ThreadState::Detached),
    {
        self.state = ThreadState::Detached;
        Request::Detach { pid: self.pid }
    }

    /// Takes in the outcome of a blocking reap of the task: `res` is what
    /// the wait call returned and `status` the status word it filled in.
    ///
    /// A stop puts the task under the tracer, an exit or a killing signal
    /// ends it. A failed reap leaves the record as it was.
    pub fn wait(&mut self, res: i32, status: i32) -> (r: Result<WaitStatus, Error>)
        ensures
            r == spec_wait(res, status),
            r matches Ok(s) ==> *final(self) == old(self).with_state(
                state_after(old(self).state, s),
            ),
            r is Err ==> *final(self) == *old(self),
    {
        let status = crate::util::signal::wait(res, status)?;
        self.state = match status {
            WaitStatus::Stopped(_) => ThreadState::Tracing,
            WaitStatus::Exited(_) => ThreadState::Exited,
            WaitStatus::Signaled(_) => ThreadState::Exited,
            WaitStatus::Running => self.state,
        };
        Ok(status)
    }

    /// Takes in the outcome of a non-blocking reap of the task.
    ///
    /// As `wait`, but a return of zero says that the task had nothing to
    /// report, and leaves the record as it was.
    pub fn wait_nonblocking(&mut self, res: i32, status: i32) -> (r: Result<WaitStatus, Error>)
        ensures
            r == spec_wait_nonblock(res, status),
            r matches Ok(s) ==> *final(self) == old(self).with_state(
                state_after(old(self).state, s),
            ),
            r is Err ==> *final(self) == *old(self),
    {
        let status = crate::util::signal::wait_nonblock(res, status)?;
        self.state = match status {
            WaitStatus::Stopped(_) => ThreadState::Tracing,
            WaitStatus::Exited(_) => ThreadState::Exited,
            WaitStatus::Signaled(_) => ThreadState::Exited,
            WaitStatus::Running => self.state,
        };
        Ok(status)
    }

    /// Interrupts a running task and reaps the stop that follows, which
    /// puts it under the tracer. Any other task is refused.
    pub fn interrupt(&mut self) -> (r: Result<(Request, Request), Error>)
        ensures
            old(self).state == ThreadState::Running ==> r == Ok::<(Request, Request), Error>(
                (Request::Interrupt { pid: old(self).pid }, Request::Wait { pid: old(self).pid }),
            ) && *final(self) == old(self).with_state(ThreadState::Tracing),
            old(self).state != ThreadState::Running ==> r == Err::<(Request, Request), Error>(
                Error::ProtocolMisuse,
            ) && *final(self) == *old(self),
    {
        if self.state != ThreadState::Running {
            return Err(Error::ProtocolMisuse);
        }
        self.state = ThreadState::Tracing;
        Ok((Request::Interrupt { pid: self.pid }, Request::Wait { pid: self.pid }))
    }

    /// Tells whether the task is stopped under the tracer.
    pub fn is_traced(&self) -> (traced: bool)
        ensures
            traced == (self.state == ThreadState::Tracing),
    {
        self.state == ThreadState::Tracing
    }

    /// Resumes a task that is stopped under the tracer, delivering `signal`
    /// to it if there is one. Any other task is refused.
    pub fn cont(&mut self, signal: Option<i32>) -> (r: Result<Request, Error>)
        ensures
            old(self).state == ThreadState::Tracing ==> r == Ok::<Request, Error>(
                Request::Continue { pid: old(self).pid, signal },
            ) && *final(self) == old(self).with_state(ThreadState::Running),
            old(self).state != ThreadState::Tracing ==> r == Err::<Request, Error>(
                Error::ProtocolMisuse,
            ) && *final(self) == *old(self),
    {
        if !self.is_traced() {
            return Err(Error::ProtocolMisuse);
        }
        self.state = ThreadState::Running;
        Ok(Request::Continue { pid: self.pid, signal })
    }

    /// Fetches the registers of a task that is stopped under the tracer.
    /// Any other task is refused.
    pub fn get_regs(&self) -> (r: Result<Request, Error>)
        ensures
            self.state == ThreadState::Tracing ==> r == Ok::<Request, Error>(
                Request::GetRegs { pid: self.pid },
            ),
            self.state != ThreadState::Tracing ==> r == Err::<Request, Error>(
                Error::ProtocolMisuse,
            ),
    {
        if !self.is_traced() {
            return Err(Error::ProtocolMisuse);
        }
        Ok(Request::GetRegs { pid: self.pid })
    }

    /// Writes `regs` into the task.
    pub fn set_regs(&self, regs: Registers) -> (request: Request)
        ensures
            request == (Request::SetRegs { pid: self.pid, regs }),
    {
        Request::SetRegs { pid: self.pid, regs }
    }
}

} // verus!
