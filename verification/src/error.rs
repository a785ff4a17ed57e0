use vstd::prelude::*;

verus! {

/// What can go wrong in the tracer core.
#[derive(Debug, Clone, Copy, PartialEq, Eq, Structural)]
pub enum Error {
    /// The target could not be attached: no such process, or no task to seize.
    AttachFailed,
    /// An operation was asked of a thread that is in the wrong state for it.
    ProtocolMisuse,
    /// The kernel reported a failure for a process-control or wait call.
    KernelCallFailed,
    /// A transfer to or from the target's memory faulted or came up short.
    MemoryAccessFailed,
    /// A length outside {1, 2, 4, 8}, a slot outside 0..=3, or an unknown
    /// breakpoint kind.
    InvalidArgument,
    /// The script did not compile.
    ScriptCompileFailed,
    /// A script callback failed while it ran.
    ScriptRuntimeFailed,
}

impl Error {
    /// Tells whether the supervisor must stop on this error: a failed attach
    /// and a misuse of the thread protocol are fatal, everything else is
    /// handled where it happens.
    pub fn is_fatal(&self) -> (fatal: bool)
        ensures
            fatal == (*self is AttachFailed || *self is ProtocolMisuse),
    {
        match self {
            Error::AttachFailed => true,
            Error::ProtocolMisuse => true,
            _ => false,
        }
    }
}

} // verus!
