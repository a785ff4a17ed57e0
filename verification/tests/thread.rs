use tracer_core::error::Error;
use tracer_core::hwbp::{HardwareBreakpoint, HardwareBreakpointType};
use tracer_core::registers::Registers;
use tracer_core::thread::{Thread, ThreadState};
use tracer_core::util::ptrace::{default_options, dr_offset, Request, DEFAULT_PTRACE_OPTIONS};
use tracer_core::util::signal::WaitStatus;

fn zero_registers() -> Registers {
    Registers {
        r15: 0,
        r14: 0,
        r13: 0,
        r12: 0,
        rbp: 0,
        rbx: 0,
        r11: 0,
        r10: 0,
        r9: 0,
        r8: 0,
        rax: 0,
        rcx: 0,
        rdx: 0,
        rsi: 0,
        rdi: 0,
        orig_rax: 0,
        rip: 0,
        cs: 0,
        eflags: 0,
        rsp: 0,
        ss: 0,
        fs_base: 0,
        gs_base: 0,
        ds: 0,
        es: 0,
        fs: 0,
        gs: 0,
    }
}

fn traced(pid: u32) -> Thread {
    let mut thread = Thread::new(pid, "worker\n");
    thread.attach();
    thread.interrupt().unwrap();
    thread
}

#[test]
fn new_trims_the_name_and_starts_detached() {
    let thread = Thread::new(42, "  cat \n");
    assert_eq!(thread.pid, 42);
    assert_eq!(thread.name, "cat");
    assert_eq!(thread.state, ThreadState::Detached);
}

#[test]
fn new_trims_every_kind_of_white_space() {
    let thread = Thread::new(42, "\u{2003}\t\u{a0}k worker/0 \u{3000}\u{85}\r\n");
    assert_eq!(thread.name, "k worker/0");
    assert_eq!(Thread::new(42, " \n").name, "");
    assert_eq!(Thread::new(42, "\u{200b}x").name, "\u{200b}x");
}

#[test]
fn attach_seizes_and_leaves_the_thread_running() {
    let mut thread = Thread::new(42, "cat");
    assert_eq!(thread.attach(), Request::Seize { pid: 42 });
    assert_eq!(thread.state, ThreadState::Running);
}

#[test]
fn interrupt_needs_a_running_thread() {
    let mut thread = Thread::new(42, "cat");
    assert_eq!(thread.interrupt(), Err(Error::ProtocolMisuse));
    assert_eq!(thread.state, ThreadState::Detached);
    thread.attach();
    assert_eq!(
        thread.interrupt(),
        Ok((Request::Interrupt { pid: 42 }, Request::Wait { pid: 42 }))
    );
    assert_eq!(thread.state, ThreadState::Tracing);
    assert!(thread.is_traced());
    assert_eq!(thread.interrupt(), Err(Error::ProtocolMisuse));
}

#[test]
fn cont_needs_a_traced_thread_and_carries_the_signal() {
    let mut thread = Thread::new(42, "cat");
    thread.attach();
    assert_eq!(thread.cont(None), Err(Error::ProtocolMisuse));
    assert_eq!(thread.state, ThreadState::Running);
    thread.interrupt().unwrap();
    assert_eq!(
        thread.cont(Some(10)),
        Ok(Request::Continue { pid: 42, signal: Some(10) })
    );
    assert_eq!(thread.state, ThreadState::Running);
    assert!(!thread.is_traced());
}

#[test]
fn set_options_and_get_regs_need_a_traced_thread() {
    let mut thread = Thread::new(7, "cat");
    thread.attach();
    assert_eq!(thread.set_options(DEFAULT_PTRACE_OPTIONS), Err(Error::ProtocolMisuse));
    assert_eq!(thread.get_regs(), Err(Error::ProtocolMisuse));
    thread.interrupt().unwrap();
    assert_eq!(
        thread.set_options(DEFAULT_PTRACE_OPTIONS),
        Ok(Request::SetOptions { pid: 7, options: 9 })
    );
    assert_eq!(thread.get_regs(), Ok(Request::GetRegs { pid: 7 }));
}

#[test]
fn default_options_are_sysgood_and_clone() {
    assert_eq!(default_options(), 0x1 | 0x8);
    assert_eq!(default_options(), DEFAULT_PTRACE_OPTIONS);
}

#[test]
fn set_regs_carries_the_snapshot() {
    let thread = traced(7);
    let mut regs = zero_registers();
    regs.rip = 0x401000;
    assert_eq!(thread.set_regs(regs), Request::SetRegs { pid: 7, regs });
}

#[test]
fn detach_works_from_any_state() {
    let mut thread = traced(7);
    assert_eq!(thread.detach(), Request::Detach { pid: 7 });
    assert_eq!(thread.state, ThreadState::Detached);
}

#[test]
fn wait_drives_the_state() {
    let mut thread = Thread::new(7, "cat");
    thread.attach();
    assert_eq!(thread.wait(7, 0x137f), Ok(WaitStatus::Stopped(0x137f)));
    assert_eq!(thread.state, ThreadState::Tracing);
    assert_eq!(thread.wait(7, 0), Ok(WaitStatus::Exited(0)));
    assert_eq!(thread.state, ThreadState::Exited);

    let mut killed = Thread::new(8, "cat");
    killed.attach();
    assert_eq!(killed.wait_nonblocking(8, 9), Ok(WaitStatus::Signaled(9)));
    assert_eq!(killed.state, ThreadState::Exited);
}

#[test]
fn a_failed_wait_changes_nothing() {
    let mut thread = Thread::new(7, "cat");
    thread.attach();
    assert_eq!(thread.wait(-1, 0x137f), Err(Error::KernelCallFailed));
    assert_eq!(thread.state, ThreadState::Running);
    assert_eq!(thread.wait_nonblocking(-1, 0), Err(Error::KernelCallFailed));
    assert_eq!(thread.state, ThreadState::Running);
}

#[test]
fn no_status_leaves_the_state_untouched() {
    let mut running = Thread::new(7, "cat");
    running.attach();
    assert_eq!(running.wait_nonblocking(0, 0), Ok(WaitStatus::Running));
    assert_eq!(running.state, ThreadState::Running);

    let mut stopped = traced(8);
    assert_eq!(stopped.wait_nonblocking(0, 0), Ok(WaitStatus::Running));
    assert_eq!(stopped.state, ThreadState::Tracing);
}

#[test]
fn set_breakpoint_writes_the_address_then_dr7() {
    let thread = traced(7);
    let bp = HardwareBreakpoint::new(0x401256, HardwareBreakpointType::Execute, 1, 1).unwrap();
    assert_eq!(
        thread.set_breakpoint(&bp, 0),
        Ok((
            Request::PokeUser { pid: 7, offset: 848 + 8, word: 0x401256 },
            Request::PokeUser { pid: 7, offset: 848 + 56, word: 1 << 2 },
        ))
    );
    let mut running = Thread::new(8, "cat");
    running.attach();
    assert_eq!(running.set_breakpoint(&bp, 0), Err(Error::ProtocolMisuse));
}

#[test]
fn clear_breakpoint_clears_only_the_enable_bit() {
    let thread = traced(7);
    let bp = HardwareBreakpoint::new(0x601040, HardwareBreakpointType::Write, 4, 0).unwrap();
    let programmed = bp.enable(0);
    assert_eq!(programmed, 1 | (0b01 << 16) | (0b11 << 18));
    assert_eq!(
        thread.clear_breakpoint(&bp, programmed),
        Ok(Request::PokeUser { pid: 7, offset: dr_offset(7), word: (0b01 << 16) | (0b11 << 18) })
    );
    let mut running = Thread::new(8, "cat");
    running.attach();
    assert_eq!(running.clear_breakpoint(&bp, programmed), Err(Error::ProtocolMisuse));
}

#[test]
fn get_hit_breakpoints_lists_the_set_bits_in_order() {
    let thread = traced(7);
    assert_eq!(thread.get_hit_breakpoints(0), Vec::<usize>::new());
    assert_eq!(thread.get_hit_breakpoints(0b0001), vec![0]);
    assert_eq!(thread.get_hit_breakpoints(0b1010), vec![1, 3]);
    assert_eq!(thread.get_hit_breakpoints(0b1111), vec![0, 1, 2, 3]);
    assert_eq!(thread.get_hit_breakpoints(0x4000 | 0b0100), vec![2]);
}

#[test]
fn clear_breakpoint_hit_clears_one_bit() {
    let thread = traced(7);
    assert_eq!(
        thread.clear_breakpoint_hit(1, 0x4000 | 0b0111),
        Ok(Request::PokeUser { pid: 7, offset: 848 + 48, word: 0x4000 | 0b0101 })
    );
    assert_eq!(thread.clear_breakpoint_hit(4, 0b0111), Err(Error::InvalidArgument));
    let mut running = Thread::new(8, "cat");
    running.attach();
    assert_eq!(running.clear_breakpoint_hit(1, 0b0111), Err(Error::ProtocolMisuse));
}

#[test]
fn debug_registers_lie_one_word_apart() {
    assert_eq!(dr_offset(0), 848);
    assert_eq!(dr_offset(6), 896);
    assert_eq!(dr_offset(7), 904);
}
