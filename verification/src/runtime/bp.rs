use vstd::prelude::*;

use crate::debugger::{Debugger, RuntimeCallback};
use crate::error::Error;
use crate::hwbp::{HardwareBreakpointType, SLOT_COUNT};

verus! {

/// The script's `breakpoint(addr, fn)`: registers an execute breakpoint of
/// one byte on `addr`, with `callback` to call when it fires. The address
/// is the script's integer taken as unsigned. Returns the slot, or refuses
/// a fifth breakpoint.
pub fn breakpoint(debugger: &mut Debugger, addr: i64, callback: rhai::FnPtr) -> (r: Result<
    usize,
    Error,
>)
    requires
        old(debugger).wf(),
    ensures
        final(debugger).wf(),
        final(debugger)@.threads == old(debugger)@.threads,
        final(debugger)@.adopted == old(debugger)@.adopted,
        r is Ok <==> old(debugger)@.breakpoints.len() < SLOT_COUNT,
        r is Err ==> r == Err::<usize, Error>(Error::InvalidArgument) && final(debugger)@ == old(debugger)@,
        r matches Ok(slot) ==> {
            &&& slot == old(debugger)@.breakpoints.len()
            &&& final(debugger)@.breakpoints.len() == slot + 1
            &&& final(debugger)@.breakpoints.drop_last() == old(debugger)@.breakpoints
            &&& final(debugger)@.breakpoints[slot as int].address() == addr as u64
            &&& final(debugger)@.breakpoints[slot as int].kind() == HardwareBreakpointType::Execute
            &&& final(debugger)@.breakpoints[slot as int].length() == 1
            &&& final(debugger)@.breakpoints[slot as int].dr() == slot
            &&& final(debugger)@.callbacks == old(debugger)@.callbacks.push(
                RuntimeCallback::Breakpoint(slot, callback),
            )
        },
{
    debugger.register(addr as u64, HardwareBreakpointType::Execute, 1, callback)
}

/// The script's `watchpoint(addr, len, fn)`: registers an access breakpoint
/// of `length` bytes on `addr`, with `callback` to call when it fires.
/// Returns the slot, or refuses a length other than 1, 2, 4 or 8 and a
/// fifth breakpoint.
pub fn watchpoint(debugger: &mut Debugger, addr: i64, length: i64, callback: rhai::FnPtr) -> (r:
    Result<usize, Error>)
    requires
        old(debugger).wf(),
    ensures
        final(debugger).wf(),
        final(debugger)@.threads == old(debugger)@.threads,
        final(debugger)@.adopted == old(debugger)@.adopted,
        r is Ok <==> old(debugger)@.breakpoints.len() < SLOT_COUNT && (length == 1 || length == 2
            || length == 4 || length == 8),
        r is Err ==> r == Err::<usize, Error>(Error::InvalidArgument) && final(debugger)@ == old(debugger)@,
        r matches Ok(slot) ==> {
            &&& slot == old(debugger)@.breakpoints.len()
            &&& final(debugger)@.breakpoints.len() == slot + 1
            &&& final(debugger)@.breakpoints.drop_last() == old(debugger)@.breakpoints
            &&& final(debugger)@.breakpoints[slot as int].address() == addr as u64
            &&& final(debugger)@.breakpoints[slot as int].kind() == HardwareBreakpointType::Access
            &&& final(debugger)@.breakpoints[slot as int].length() == length
            &&& final(debugger)@.breakpoints[slot as int].dr() == slot
            &&& final(debugger)@.callbacks == old(debugger)@.callbacks.push(
                RuntimeCallback::Breakpoint(slot, callback),
            )
        },
{
    if length < 1 || length > 8 {
        return Err(Error::InvalidArgument);
    }
    debugger.register(addr as u64, HardwareBreakpointType::Access, length as usize, callback)
}

} // verus!
