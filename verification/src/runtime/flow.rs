use vstd::prelude::*;

use crate::registers::Registers;

verus! {

/// The script's `jump(thread, rip)`: the registers to write back so that
/// the thread goes on at `rip`. They are the snapshot `regs` with its
/// instruction pointer replaced, and nothing else changed; the address is
/// the script's integer taken as unsigned.
pub fn jump(regs: Registers, rip: i64) -> (redirected: Registers)
    ensures
        redirected == (Registers { rip: rip as u64, ..regs }),
{
    Registers { rip: rip as u64, ..regs }
}

} // verus!
