use vstd::prelude::*;

use crate::registers::Registers;
use crate::runtime::thread::RhaiThread;
use crate::util::ptrace::Request;

verus! {

/// The general-purpose registers as a script sees them: every register is a
/// script integer, which is 64 bits wide and signed. A register and its
/// script integer have the same 64 bits.
#[derive(Debug, Clone, Copy, PartialEq, Eq, Structural)]
pub struct RhaiRegisters {
    pub r15: i64,
    pub r14: i64,
    pub r13: i64,
    pub r12: i64,
    pub rbp: i64,
    pub rbx: i64,
    pub r11: i64,
    pub r10: i64,
    pub r9: i64,
    pub r8: i64,
    pub rax: i64,
    pub rcx: i64,
    pub rdx: i64,
    pub rsi: i64,
    pub rdi: i64,
    pub orig_rax: i64,
    pub rip: i64,
    pub cs: i64,
    pub eflags: i64,
    pub rsp: i64,
    pub ss: i64,
    pub fs_base: i64,
    pub gs_base: i64,
    pub ds: i64,
    pub es: i64,
    pub fs: i64,
    pub gs: i64,
}

impl RhaiRegisters {
    /// The script's view of a register snapshot: each register, taken as a
    /// signed integer of the same bits.
    pub open spec fn of(regs: Registers) -> RhaiRegisters {
        RhaiRegisters {
            r15: regs.r15 as i64,
            r14: regs.r14 as i64,
            r13: regs.r13 as i64,
            r12: regs.r12 as i64,
            rbp: regs.rbp as i64,
            rbx: regs.rbx as i64,
            r11: regs.r11 as i64,
            r10: regs.r10 as i64,
            r9: regs.r9 as i64,
            r8: regs.r8 as i64,
            rax: regs.rax as i64,
            rcx: regs.rcx as i64,
            rdx: regs.rdx as i64,
            rsi: regs.rsi as i64,
            rdi: regs.rdi as i64,
            orig_rax: regs.orig_rax as i64,
            rip: regs.rip as i64,
            cs: regs.cs as i64,
            eflags: regs.eflags as i64,
            rsp: regs.rsp as i64,
            ss: regs.ss as i64,
            fs_base: regs.fs_base as i64,
            gs_base: regs.gs_base as i64,
            ds: regs.ds as i64,
            es: regs.es as i64,
            fs: regs.fs as i64,
            gs: regs.gs as i64,
        }
    }

    /// The register snapshot that a script's registers stand for: each
    /// integer, taken as an unsigned integer of the same bits.
    pub open spec fn registers(self) -> Registers {
        Registers {
            r15: self.r15 as u64,
            r14: self.r14 as u64,
            r13: self.r13 as u64,
            r12: self.r12 as u64,
            rbp: self.rbp as u64,
            rbx: self.rbx as u64,
            r11: self.r11 as u64,
            r10: self.r10 as u64,
            r9: self.r9 as u64,
            r8: self.r8 as u64,
            rax: self.rax as u64,
            rcx: self.rcx as u64,
            rdx: self.rdx as u64,
            rsi: self.rsi as u64,
            rdi: self.rdi as u64,
            orig_rax: self.orig_rax as u64,
            rip: self.rip as u64,
            cs: self.cs as u64,
            eflags: self.eflags as u64,
            rsp: self.rsp as u64,
            ss: self.ss as u64,
            fs_base: self.fs_base as u64,
            gs_base: self.gs_base as u64,
            ds: self.ds as u64,
            es: self.es as u64,
            fs: self.fs as u64,
            gs: self.gs as u64,
        }
    }
}

impl From<&Registers> for RhaiRegisters {
    fn from(regs: &Registers) -> (seen: RhaiRegisters) {
        Self {
            r15: regs.r15 as i64,
            r14: regs.r14 as i64,
            r13: regs.r13 as i64,
            r12: regs.r12 as i64,
            rbp: regs.rbp as i64,
            rbx: regs.rbx as i64,
            r11: regs.r11 as i64,
            r10: regs.r10 as i64,
            r9: regs.r9 as i64,
            r8: regs.r8 as i64,
            rax: regs.rax as i64,
            rcx: regs.rcx as i64,
            rdx: regs.rdx as i64,
            rsi: regs.rsi as i64,
            rdi: regs.rdi as i64,
            orig_rax: regs.orig_rax as i64,
            rip: regs.rip as i64,
            cs: regs.cs as i64,
            eflags: regs.eflags as i64,
            rsp: regs.rsp as i64,
            ss: regs.ss as i64,
            fs_base: regs.fs_base as i64,
            gs_base: regs.gs_base as i64,
            ds: regs.ds as i64,
            es: regs.es as i64,
            fs: regs.fs as i64,
            gs: regs.gs as i64,
        }
    }
}

impl vstd::std_specs::convert::FromSpecImpl<&Registers> for RhaiRegisters {
    open spec fn obeys_from_spec() -> bool {
        true
    }

    open spec fn from_spec(regs: &Registers) -> RhaiRegisters {
        RhaiRegisters::of(*regs)
    }
}

impl From<&RhaiRegisters> for Registers {
    fn from(regs: &RhaiRegisters) -> (snapshot: Registers) {
        Registers {
            r15: regs.r15 as u64,
            r14: regs.r14 as u64,
            r13: regs.r13 as u64,
            r12: regs.r12 as u64,
            rbp: regs.rbp as u64,
            rbx: regs.rbx as u64,
            r11: regs.r11 as u64,
            r10: regs.r10 as u64,
            r9: regs.r9 as u64,
            r8: regs.r8 as u64,
            rax: regs.rax as u64,
            rcx: regs.rcx as u64,
            rdx: regs.rdx as u64,
            rsi: regs.rsi as u64,
            rdi: regs.rdi as u64,
            orig_rax: regs.orig_rax as u64,
            rip: regs.rip as u64,
            cs: regs.cs as u64,
            eflags: regs.eflags as u64,
            rsp: regs.rsp as u64,
            ss: regs.ss as u64,
            fs_base: regs.fs_base as u64,
            gs_base: regs.gs_base as u64,
            ds: regs.ds as u64,
            es: regs.es as u64,
            fs: regs.fs as u64,
            gs: regs.gs as u64,
        }
    }
}

impl vstd::std_specs::convert::FromSpecImpl<&RhaiRegisters> for Registers {
    open spec fn obeys_from_spec() -> bool {
        true
    }

    open spec fn from_spec(regs: &RhaiRegisters) -> Registers {
        regs.registers()
    }
}

/// A register goes to a script and comes back unchanged.
pub proof fn lemma_word_round_trip(word: u64)
    ensures
        (word as i64) as u64 == word,
{
    assert((word as i64) as u64 == word) by (bit_vector);
}

/// A script integer goes into a register and comes back unchanged.
pub proof fn lemma_integer_round_trip(value: i64)
    ensures
        (value as u64) as i64 == value,
{
    assert((value as u64) as i64 == value) by (bit_vector);
}

/// A register snapshot that is handed to a script and taken back is the
/// snapshot that was handed over.
pub proof fn lemma_registers_round_trip(regs: Registers)
    ensures
        RhaiRegisters::of(regs).registers() == regs,
{
    lemma_word_round_trip(regs.r15);
    lemma_word_round_trip(regs.r14);
    lemma_word_round_trip(regs.r13);
    lemma_word_round_trip(regs.r12);
    lemma_word_round_trip(regs.rbp);
    lemma_word_round_trip(regs.rbx);
    lemma_word_round_trip(regs.r11);
    lemma_word_round_trip(regs.r10);
    lemma_word_round_trip(regs.r9);
    lemma_word_round_trip(regs.r8);
    lemma_word_round_trip(regs.rax);
    lemma_word_round_trip(regs.rcx);
    lemma_word_round_trip(regs.rdx);
    lemma_word_round_trip(regs.rsi);
    lemma_word_round_trip(regs.rdi);
    lemma_word_round_trip(regs.orig_rax);
    lemma_word_round_trip(regs.rip);
    lemma_word_round_trip(regs.cs);
    lemma_word_round_trip(regs.eflags);
    lemma_word_round_trip(regs.rsp);
    lemma_word_round_trip(regs.ss);
    lemma_word_round_trip(regs.fs_base);
    lemma_word_round_trip(regs.gs_base);
    lemma_word_round_trip(regs.ds);
    lemma_word_round_trip(regs.es);
    lemma_word_round_trip(regs.fs);
    lemma_word_round_trip(regs.gs);
}

/// The script's `set_registers(thread, regs)`: the request that writes the
/// registers that the script holds into the thread that the script names.
/// A PID that is no task id names no thread.
pub fn set_registers(thread: &RhaiThread, regs: &RhaiRegisters) -> (request: Option<Request>)
    ensures
        0 <= thread.pid <= u32::MAX ==> request == Some(
            Request::SetRegs { pid: thread.pid as u32, regs: regs.registers() },
        ),
        !(0 <= thread.pid <= u32::MAX) ==> request is None,
{
    match thread.task_id() {
        Some(pid) => Some(Request::SetRegs { pid, regs: Registers::from(regs) }),
        None => None,
    }
}

/// Index of lane `lane` of register `xmm<reg>` in the sequence of 32-bit
/// words that holds XMM0 to XMM15, four words to a register.
pub open spec fn spec_xmm_index(reg: i64, lane: i64) -> Option<usize> {
    if 0 <= reg < 16 && 0 <= lane < 4 {
        Some((reg * 4 + lane) as usize)
    } else {
        None
    }
}

/// Index of lane `lane` of register `xmm<reg>` among the 64 words of the
/// XMM file. There are sixteen registers of four lanes each; anything else
/// has no index.
pub fn xmm_index(reg: i64, lane: i64) -> (index: Option<usize>)
    ensures
        index == spec_xmm_index(reg, lane),
        index matches Some(i) ==> i < 64,
{
    if 0 <= reg && reg < 16 && 0 <= lane && lane < 4 {
        Some((reg * 4 + lane) as usize)
    } else {
        None
    }
}

} // verus!
