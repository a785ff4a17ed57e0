use vstd::prelude::*;

use crate::registers::Registers;

verus! {

/// One call into the kernel's process-control or wait interface, as a value.
///
/// The tracer core decides which calls are made, on which task and with
/// which arguments; whoever drives the core makes them, in the order in
/// which they are handed out.
#[derive(Debug, Clone, Copy, PartialEq, Eq, Structural)]
pub enum Request {
    /// Begin tracing the task without stopping it.
    Seize { pid: u32 },
    /// Ask a seized, running task to stop. Does not wait for the stop.
    Interrupt { pid: u32 },
    /// Block until the task reports a status, and reap it.
    Wait { pid: u32 },
    /// Set the tracer's option bits for the task.
    SetOptions { pid: u32, options: i32 },
    /// Resume a stopped task, delivering `signal` to it if there is one.
    Continue { pid: u32, signal: Option<i32> },
    /// Stop tracing the task.
    Detach { pid: u32 },
    /// Fetch the task's general-purpose registers.
    GetRegs { pid: u32 },
    /// Write the task's general-purpose registers.
    SetRegs { pid: u32, regs: Registers },
    /// Write one word into the task's user area at `offset`.
    PokeUser { pid: u32, offset: usize, word: u64 },
}

/// `libc::PTRACE_O_TRACESYSGOOD`: the option bit, 1, that marks syscall
/// stops so that they can be told apart from signal stops.
#[verifier::external_body]
fn option_trace_sysgood() -> (option: i32)
    ensures
        option == 0x1,
{
    libc::PTRACE_O_TRACESYSGOOD
}

/// `libc::PTRACE_O_TRACECLONE`: the option bit, 8, that makes the kernel
/// report a clone as a stop of its own.
#[verifier::external_body]
fn option_trace_clone() -> (option: i32)
    ensures
        option == 0x8,
{
    libc::PTRACE_O_TRACECLONE
}

/// `libc::PTRACE_EVENT_CLONE`: the event code, 3, that the kernel puts in
/// the status word of a clone stop.
#[verifier::external_body]
pub(crate) fn event_clone() -> (event: i32)
    ensures
        event == 3,
{
    libc::PTRACE_EVENT_CLONE
}

/// `libc::SIGTRAP`: the number, 5, of the trap signal.
#[verifier::external_body]
pub(crate) fn sigtrap() -> (signal: i32)
    ensures
        signal == SIGTRAP,
{
    libc::SIGTRAP
}

/// Number of the trap signal, which debug-register hits and trace events
/// are reported with.
pub const SIGTRAP: i32 = 5;

/// Tracer options set on every traced task: clone events are reported as
/// stops of their own, and syscall stops are told apart from signal stops.
pub const DEFAULT_PTRACE_OPTIONS: i32 = 0x9;

/// The tracer options set on every traced task, put together from the
/// kernel's option bits.
pub fn default_options() -> (options: i32)
    ensures
        options == DEFAULT_PTRACE_OPTIONS,
{
    let sysgood = option_trace_sysgood();
    let clone = option_trace_clone();
    assert(0x1i32 | 0x8i32 == 0x9i32) by (bit_vector);
    sysgood | clone
}

/// Size in bytes of one word of the user area.
pub const WORD_SIZE: usize = 8;

/// Offset of `u_debugreg[0]` from the start of the x86-64 user area.
pub const DEBUGREG_BASE: usize = 848;

/// Offset of debug register `n` in the user area.
pub open spec fn spec_dr_offset(n: usize) -> usize {
    (DEBUGREG_BASE + n * WORD_SIZE) as usize
}

/// Offset of debug register `n` (DR0 to DR7) in the user area: the debug
/// registers lie one word apart, starting at `DEBUGREG_BASE`.
#[verifier::when_used_as_spec(spec_dr_offset)]
pub fn dr_offset(n: usize) -> (offset: usize)
    requires
        n < 8,
    ensures
        offset == spec_dr_offset(n),
        offset == 848 + 8 * n,
{
    DEBUGREG_BASE + n * WORD_SIZE
}

} // verus!
