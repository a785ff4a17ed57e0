use rhai::FnPtr;
use tracer_core::debugger::{Action, Debugger, RuntimeCallback, Step};
use tracer_core::error::Error;
use tracer_core::hwbp::HardwareBreakpointType;
use tracer_core::runtime::bp::{breakpoint, watchpoint};
use tracer_core::runtime::thread::RhaiThread;
use tracer_core::thread::ThreadState;
use tracer_core::util::mem;
use tracer_core::util::ptrace::Request;

const SIGINT: i32 = 2;
const SIGTRAP: i32 = 5;
const SIGUSR1: i32 = 10;
const DR6: usize = 848 + 6 * 8;
const DR7: usize = 848 + 7 * 8;

fn stop_status(signal: i32) -> i32 {
    (signal << 8) | 0x7f
}

fn clone_status() -> i32 {
    (3 << 16) | stop_status(SIGTRAP)
}

fn callback(name: &str) -> FnPtr {
    FnPtr::new(name).unwrap()
}

fn tasks(list: &[(u32, &str)]) -> Vec<(u32, String)> {
    list.iter().map(|(pid, comm)| (*pid, comm.to_string())).collect()
}

fn attached(list: &[(u32, &str)]) -> Debugger {
    let mut debugger = Debugger::new();
    debugger.attach(&tasks(list)).unwrap();
    debugger
}

fn who(pid: i64, name: &str) -> RhaiThread {
    RhaiThread::new(pid, name.to_string())
}

fn kernel(request: Request) -> Action {
    Action::Kernel(request)
}

fn poke(pid: u32, offset: usize, word: u64) -> Request {
    Request::PokeUser { pid, offset, word }
}

fn resume(pid: u32, signal: Option<i32>) -> Request {
    Request::Continue { pid, signal }
}

fn calls(actions: &[Action]) -> Vec<usize> {
    actions
        .iter()
        .filter_map(|action| match action {
            Action::Invoke { callback, .. } => Some(*callback),
            _ => None,
        })
        .collect()
}

fn states(debugger: &Debugger) -> Vec<ThreadState> {
    debugger.threads().iter().map(|thread| thread.state).collect()
}

#[test]
fn a_new_engine_is_empty() {
    let debugger = Debugger::new();
    assert!(debugger.threads().is_empty());
    assert!(debugger.breakpoints().is_empty());
    assert!(debugger.callbacks().is_empty());
    assert_eq!(debugger.next_slot(), Some(0));
}

#[test]
fn attach_seizes_every_task_in_order() {
    let mut debugger = Debugger::new();
    let requests = debugger.attach(&tasks(&[(100, "main\n"), (101, "worker\n")])).unwrap();
    let mut expected = Vec::new();
    for pid in [100u32, 101] {
        expected.push(Request::Seize { pid });
        expected.push(Request::Interrupt { pid });
        expected.push(Request::Wait { pid });
        expected.push(Request::SetOptions { pid, options: 0x9 });
        expected.push(Request::Continue { pid, signal: None });
    }
    assert_eq!(requests, expected);
    assert_eq!(debugger.threads().len(), 2);
    assert_eq!(debugger.threads()[0].pid, 100);
    assert_eq!(debugger.threads()[0].name, "main");
    assert_eq!(debugger.threads()[1].name, "worker");
    assert_eq!(states(&debugger), vec![ThreadState::Running, ThreadState::Running]);
}

#[test]
fn attach_fails_without_a_task() {
    let mut debugger = Debugger::new();
    assert_eq!(debugger.attach(&Vec::new()), Err(Error::AttachFailed));
    assert!(debugger.threads().is_empty());
}

#[test]
fn stop_all_interrupts_the_running_threads_only() {
    let mut debugger = attached(&[(100, "a"), (101, "b")]);
    debugger.run(1, 101, stop_status(SIGTRAP)).unwrap();
    assert_eq!(states(&debugger), vec![ThreadState::Running, ThreadState::Tracing]);
    assert_eq!(
        debugger.stop_all(),
        vec![Request::Interrupt { pid: 100 }, Request::Wait { pid: 100 }]
    );
    assert_eq!(states(&debugger), vec![ThreadState::Tracing, ThreadState::Tracing]);
    assert!(debugger.all_threads_traced());
    assert_eq!(debugger.stop_all(), Vec::new());
}

#[test]
fn continue_all_resumes_the_stopped_threads_only() {
    let mut debugger = attached(&[(100, "a"), (101, "b")]);
    debugger.run(1, 101, stop_status(SIGTRAP)).unwrap();
    assert_eq!(debugger.continue_all(), vec![resume(101, None)]);
    assert_eq!(states(&debugger), vec![ThreadState::Running, ThreadState::Running]);
    assert_eq!(debugger.continue_all(), Vec::new());
}

#[test]
fn slots_are_given_out_in_order_and_a_fifth_is_refused() {
    let mut debugger = Debugger::new();
    for expected in 0..4usize {
        assert_eq!(debugger.next_slot(), Some(expected));
        let slot =
            breakpoint(&mut debugger, 0x1000 + expected as i64, callback("on_hit")).unwrap();
        assert_eq!(slot, expected);
        assert_eq!(debugger.breakpoints()[expected].dr(), expected);
    }
    assert_eq!(debugger.next_slot(), None);
    assert_eq!(
        breakpoint(&mut debugger, 0x5000, callback("on_hit")),
        Err(Error::InvalidArgument)
    );
    assert_eq!(
        watchpoint(&mut debugger, 0x5000, 4, callback("on_hit")),
        Err(Error::InvalidArgument)
    );
    assert_eq!(debugger.breakpoints().len(), 4);
    assert_eq!(debugger.callbacks().len(), 4);
}

#[test]
fn the_next_slot_after_a_clear_is_zero() {
    let mut debugger = attached(&[(100, "a")]);
    for address in [0x1000, 0x2000, 0x3000] {
        breakpoint(&mut debugger, address, callback("on_hit")).unwrap();
    }
    debugger.stop_all();
    debugger.clear_breakpoints(&vec![0]).unwrap();
    assert!(debugger.breakpoints().is_empty());
    assert_eq!(debugger.next_slot(), Some(0));
    assert_eq!(breakpoint(&mut debugger, 0x4000, callback("on_hit")), Ok(0));
    assert_eq!(breakpoint(&mut debugger, 0x5000, callback("on_hit")), Ok(1));
}

#[test]
fn breakpoint_registers_one_executed_byte() {
    let mut debugger = Debugger::new();
    assert_eq!(breakpoint(&mut debugger, 0x401146, callback("on_hit")), Ok(0));
    let registered = debugger.breakpoints()[0];
    assert_eq!(registered.address(), 0x401146);
    assert_eq!(registered.kind(), HardwareBreakpointType::Execute);
    assert_eq!(registered.length(), 1);
    assert!(matches!(&debugger.callbacks()[0], RuntimeCallback::Breakpoint(0, _)));
}

#[test]
fn breakpoint_takes_a_negative_address_as_unsigned() {
    let mut debugger = Debugger::new();
    breakpoint(&mut debugger, -4096, callback("on_hit")).unwrap();
    assert_eq!(debugger.breakpoints()[0].address(), 0xffff_ffff_ffff_f000);
}

#[test]
fn watchpoint_registers_an_access_of_the_given_length() {
    let mut debugger = Debugger::new();
    assert_eq!(watchpoint(&mut debugger, 0x601040, 8, callback("on_access")), Ok(0));
    let registered = debugger.breakpoints()[0];
    assert_eq!(registered.kind(), HardwareBreakpointType::Access);
    assert_eq!(registered.length(), 8);
}

#[test]
fn watchpoint_refuses_an_invalid_length() {
    let mut debugger = Debugger::new();
    for length in [-1i64, 0, 3, 5, 16, i64::MAX] {
        assert_eq!(
            watchpoint(&mut debugger, 0x601040, length, callback("on_access")),
            Err(Error::InvalidArgument)
        );
    }
    assert!(debugger.breakpoints().is_empty());
    assert!(debugger.callbacks().is_empty());
}

#[test]
fn apply_breakpoints_programs_every_breakpoint_into_every_thread() {
    let mut debugger = attached(&[(100, "a"), (101, "b")]);
    breakpoint(&mut debugger, 0x1000, callback("first")).unwrap();
    watchpoint(&mut debugger, 0x2000, 4, callback("second")).unwrap();
    debugger.stop_all();
    let first = 1u64;
    let both = first | (1 << 2) | (0b11 << 20) | (0b11 << 22);
    let background = 1u64 << 10;
    assert_eq!(
        debugger.apply_breakpoints(&vec![0, background]),
        Ok(vec![
            poke(100, 848, 0x1000),
            poke(100, DR7, first),
            poke(100, 856, 0x2000),
            poke(100, DR7, both),
            poke(101, 848, 0x1000),
            poke(101, DR7, background | first),
            poke(101, 856, 0x2000),
            poke(101, DR7, background | both),
        ])
    );
}

#[test]
fn apply_breakpoints_needs_every_thread_stopped() {
    let mut debugger = attached(&[(100, "a"), (101, "b")]);
    breakpoint(&mut debugger, 0x1000, callback("first")).unwrap();
    assert_eq!(debugger.apply_breakpoints(&vec![0, 0]), Err(Error::ProtocolMisuse));
    debugger.stop_all();
    assert_eq!(debugger.apply_breakpoints(&vec![0]), Err(Error::InvalidArgument));
}

#[test]
fn clear_breakpoints_disables_everything_and_empties_the_registry() {
    let mut debugger = attached(&[(100, "a"), (101, "b")]);
    breakpoint(&mut debugger, 0x1000, callback("first")).unwrap();
    breakpoint(&mut debugger, 0x2000, callback("second")).unwrap();
    debugger.on_thread_exited(callback("gone"));
    debugger.stop_all();
    let programmed = 0b0101u64 | (1 << 10);
    assert_eq!(
        debugger.clear_breakpoints(&vec![programmed, 0b0001]),
        Ok(vec![
            poke(100, DR7, 0b0100 | (1 << 10)),
            poke(100, DR7, 1 << 10),
            poke(101, DR7, 0),
            poke(101, DR7, 0),
        ])
    );
    assert!(debugger.breakpoints().is_empty());
    assert_eq!(debugger.callbacks().len(), 1);
    assert!(matches!(&debugger.callbacks()[0], RuntimeCallback::ThreadExited(_)));
    debugger.clear_callbacks();
    assert!(debugger.callbacks().is_empty());
}

#[test]
fn clear_breakpoints_changes_nothing_when_it_fails() {
    let mut debugger = attached(&[(100, "a")]);
    breakpoint(&mut debugger, 0x1000, callback("first")).unwrap();
    assert_eq!(debugger.clear_breakpoints(&vec![1]), Err(Error::ProtocolMisuse));
    debugger.stop_all();
    assert_eq!(debugger.clear_breakpoints(&vec![1, 1]), Err(Error::InvalidArgument));
    assert_eq!(debugger.breakpoints().len(), 1);
    assert_eq!(debugger.callbacks().len(), 1);
}

#[test]
fn run_passes_on_every_signal_but_the_trap() {
    for signal in [1, SIGINT, 3, 4, 6, SIGUSR1, 11, 12, 15, 17, 19, 64] {
        let mut debugger = attached(&[(100, "a")]);
        assert_eq!(
            debugger.run(0, 100, stop_status(signal)),
            Ok(Step::Perform(vec![kernel(resume(100, Some(signal)))]))
        );
        assert_eq!(states(&debugger), vec![ThreadState::Running]);
    }
}

#[test]
fn run_asks_for_dr6_on_a_trap() {
    let mut debugger = attached(&[(100, "a")]);
    assert_eq!(debugger.run(0, 100, stop_status(SIGTRAP)), Ok(Step::ReadDebugStatus));
    assert_eq!(states(&debugger), vec![ThreadState::Tracing]);
}

#[test]
fn run_asks_for_the_child_on_a_clone_stop() {
    let mut debugger = attached(&[(100, "a")]);
    assert_eq!(debugger.run(0, 100, clone_status()), Ok(Step::ReadCloneEvent));
    assert_eq!(states(&debugger), vec![ThreadState::Tracing]);
}

#[test]
fn run_does_nothing_without_a_status() {
    let mut debugger = attached(&[(100, "a")]);
    assert_eq!(debugger.run(0, 0, 0), Ok(Step::Idle));
    assert_eq!(states(&debugger), vec![ThreadState::Running]);
}

#[test]
fn run_drops_a_thread_whose_reap_failed() {
    let mut debugger = attached(&[(100, "a"), (101, "b")]);
    assert_eq!(
        debugger.run(0, -1, 0),
        Ok(Step::Perform(vec![kernel(Request::Detach { pid: 100 })]))
    );
    assert_eq!(states(&debugger), vec![ThreadState::Detached, ThreadState::Running]);
    debugger.finish();
    assert_eq!(debugger.threads().len(), 1);
    assert_eq!(debugger.threads()[0].pid, 101);
}

#[test]
fn run_refuses_an_index_out_of_range() {
    let mut debugger = attached(&[(100, "a")]);
    assert_eq!(debugger.run(1, 100, 0), Err(Error::InvalidArgument));
    assert_eq!(debugger.dispatch(1, 1), Err(Error::InvalidArgument));
    assert_eq!(debugger.adopt(1, 200, "b", 200, stop_status(19), 0), Err(Error::InvalidArgument));
    assert_eq!(debugger.drop_thread(1), Err(Error::InvalidArgument));
}

#[test]
fn run_reports_an_exit_to_the_thread_exited_callbacks() {
    let mut debugger = attached(&[(100, "main\n")]);
    debugger.on_thread_created(callback("born"));
    debugger.on_thread_exited(callback("gone"));
    debugger.on_thread_exited(callback("gone_too"));
    assert_eq!(
        debugger.run(0, 100, 3 << 8),
        Ok(Step::Perform(vec![
            Action::Invoke { callback: 1, thread: who(100, "main") },
            Action::Invoke { callback: 2, thread: who(100, "main") },
        ]))
    );
    assert_eq!(states(&debugger), vec![ThreadState::Exited]);
    debugger.finish();
    assert!(debugger.threads().is_empty());
}

#[test]
fn dispatch_needs_a_stopped_thread() {
    let mut debugger = attached(&[(100, "a")]);
    assert_eq!(debugger.dispatch(0, 1), Err(Error::ProtocolMisuse));
    assert_eq!(states(&debugger), vec![ThreadState::Running]);
}

#[test]
fn dispatch_passes_on_a_trap_that_no_slot_reports() {
    let mut debugger = attached(&[(100, "a")]);
    breakpoint(&mut debugger, 0x1000, callback("on_hit")).unwrap();
    debugger.run(0, 100, stop_status(SIGTRAP)).unwrap();
    assert_eq!(debugger.dispatch(0, 0x4000), Ok(vec![kernel(resume(100, Some(SIGTRAP)))]));
    assert_eq!(states(&debugger), vec![ThreadState::Running]);
}

#[test]
fn dispatch_continues_quietly_when_the_slot_holds_no_breakpoint() {
    let mut debugger = attached(&[(100, "a")]);
    breakpoint(&mut debugger, 0x1000, callback("on_hit")).unwrap();
    debugger.run(0, 100, stop_status(SIGTRAP)).unwrap();
    assert_eq!(debugger.dispatch(0, 0b0100), Ok(vec![kernel(resume(100, None))]));
}

#[test]
fn dispatch_clears_exactly_the_slots_whose_callbacks_ran() {
    let mut debugger = attached(&[(100, "a")]);
    breakpoint(&mut debugger, 0x1000, callback("first")).unwrap();
    breakpoint(&mut debugger, 0x2000, callback("second")).unwrap();
    debugger.run(0, 100, stop_status(SIGTRAP)).unwrap();
    let before = 0x4000u64 | 0b1111;
    let actions = debugger.dispatch(0, before).unwrap();
    assert_eq!(
        actions,
        vec![
            kernel(Request::GetRegs { pid: 100 }),
            Action::Invoke { callback: 0, thread: who(100, "a") },
            kernel(poke(100, DR6, 0x4000 | 0b1110)),
            Action::Invoke { callback: 1, thread: who(100, "a") },
            kernel(poke(100, DR6, 0x4000 | 0b1100)),
            kernel(resume(100, None)),
        ]
    );
    let after = actions
        .iter()
        .filter_map(|action| match action {
            Action::Kernel(Request::PokeUser { offset: DR6, word, .. }) => Some(*word),
            _ => None,
        })
        .last()
        .unwrap();
    let ran = 0b0011u64;
    assert_eq!(after & 0xf, before & 0xf & !ran);
    assert_eq!(after & !0xf, before & !0xf);
}

#[test]
fn dispatch_calls_every_callback_of_a_slot() {
    let mut debugger = attached(&[(100, "a")]);
    breakpoint(&mut debugger, 0x1000, callback("first")).unwrap();
    debugger.on_thread_created(callback("born"));
    debugger.run(0, 100, stop_status(SIGTRAP)).unwrap();
    let actions = debugger.dispatch(0, 1).unwrap();
    assert_eq!(calls(&actions), vec![0]);
}

#[test]
fn an_execute_breakpoint_fires_once_and_the_target_exits() {
    let main = 0x401136i64;
    let mut debugger = attached(&[(100, "target\n")]);
    debugger.stop_all();
    assert_eq!(breakpoint(&mut debugger, main + 0x10, callback("on_hit")), Ok(0));
    assert_eq!(
        debugger.apply_breakpoints(&vec![0]),
        Ok(vec![poke(100, 848, 0x401146), poke(100, DR7, 1)])
    );
    assert_eq!(debugger.continue_all(), vec![resume(100, None)]);

    assert_eq!(debugger.run(0, 0, 0), Ok(Step::Idle));
    debugger.finish();

    assert_eq!(debugger.run(0, 100, stop_status(SIGTRAP)), Ok(Step::ReadDebugStatus));
    let actions = debugger.dispatch(0, 1).unwrap();
    assert_eq!(
        actions,
        vec![
            kernel(Request::GetRegs { pid: 100 }),
            Action::Invoke { callback: 0, thread: who(100, "target") },
            kernel(poke(100, DR6, 0)),
            kernel(resume(100, None)),
        ]
    );
    assert_eq!(calls(&actions).len(), 1);
    assert_eq!(debugger.breakpoints()[0].address(), 0x401146);
    debugger.finish();
    assert_eq!(states(&debugger), vec![ThreadState::Running]);

    assert_eq!(debugger.run(0, 100, 0), Ok(Step::Perform(Vec::new())));
    debugger.finish();
    assert!(debugger.threads().is_empty());
}

#[test]
fn a_write_watchpoint_fires_and_the_callback_reads_the_value() {
    let global = 0x404028u64;
    let mut debugger = attached(&[(100, "target")]);
    debugger.stop_all();
    let slot = debugger
        .register(global, HardwareBreakpointType::Write, 4, callback("on_write"))
        .unwrap();
    assert_eq!(slot, 0);
    assert_eq!(
        debugger.apply_breakpoints(&vec![0]),
        Ok(vec![poke(100, 848, global), poke(100, DR7, 1 | (0b01 << 16) | (0b11 << 18))])
    );
    debugger.continue_all();
    assert_eq!(debugger.run(0, 100, stop_status(SIGTRAP)), Ok(Step::ReadDebugStatus));
    assert_eq!(calls(&debugger.dispatch(0, 1).unwrap()), vec![0]);
    assert_eq!(mem::read(&[0xef, 0xbe, 0xad, 0xde], false), Some(0xdead_beef));
}

#[test]
fn two_breakpoints_hit_at_once_run_in_slot_order_and_continue_once() {
    let mut debugger = attached(&[(100, "target")]);
    debugger.stop_all();
    breakpoint(&mut debugger, 0x1000, callback("first")).unwrap();
    breakpoint(&mut debugger, 0x2000, callback("second")).unwrap();
    debugger.continue_all();
    debugger.run(0, 100, stop_status(SIGTRAP)).unwrap();
    let actions = debugger.dispatch(0, 0b11).unwrap();
    assert_eq!(calls(&actions), vec![0, 1]);
    let continues = actions
        .iter()
        .filter(|action| matches!(action, Action::Kernel(Request::Continue { .. })))
        .count();
    assert_eq!(continues, 1);
    assert_eq!(actions.last(), Some(&kernel(resume(100, None))));
}

#[test]
fn a_clone_is_reported_before_the_child_hits_a_breakpoint() {
    let mut debugger = attached(&[(100, "target")]);
    debugger.stop_all();
    breakpoint(&mut debugger, 0x1000, callback("on_hit")).unwrap();
    debugger.on_thread_created(callback("born"));
    debugger.apply_breakpoints(&vec![0]).unwrap();
    debugger.continue_all();

    assert_eq!(debugger.run(0, 100, clone_status()), Ok(Step::ReadCloneEvent));
    let actions = debugger.adopt(0, 200, "worker\n", 200, stop_status(19), 0).unwrap();
    assert_eq!(
        actions,
        vec![
            kernel(Request::SetOptions { pid: 200, options: 0x9 }),
            kernel(poke(200, 848, 0x1000)),
            kernel(poke(200, DR7, 1)),
            Action::Invoke { callback: 1, thread: who(200, "worker") },
            kernel(resume(200, None)),
            kernel(resume(100, None)),
        ]
    );
    assert_eq!(debugger.threads().len(), 1);
    debugger.finish();
    assert_eq!(debugger.threads().len(), 2);
    assert_eq!(debugger.threads()[1].pid, 200);
    assert_eq!(debugger.threads()[1].name, "worker");
    assert_eq!(states(&debugger), vec![ThreadState::Running, ThreadState::Running]);

    assert_eq!(debugger.run(1, 200, stop_status(SIGTRAP)), Ok(Step::ReadDebugStatus));
    let hit = debugger.dispatch(1, 1).unwrap();
    assert_eq!(hit[1], Action::Invoke { callback: 0, thread: who(200, "worker") });
}

#[test]
fn adopt_leaves_out_a_child_that_is_already_gone() {
    let mut debugger = attached(&[(100, "target")]);
    debugger.on_thread_created(callback("born"));
    debugger.run(0, 100, clone_status()).unwrap();
    assert_eq!(
        debugger.adopt(0, 200, "worker", 200, 9, 0),
        Ok(vec![kernel(resume(100, None))])
    );
    debugger.finish();
    assert_eq!(debugger.threads().len(), 1);
}

#[test]
fn adopt_fails_when_the_reap_of_the_child_failed() {
    let mut debugger = attached(&[(100, "target")]);
    debugger.run(0, 100, clone_status()).unwrap();
    assert_eq!(debugger.adopt(0, 200, "worker", -1, 0, 0), Err(Error::KernelCallFailed));
    assert_eq!(states(&debugger), vec![ThreadState::Tracing]);
    assert_eq!(debugger.drop_thread(0), Ok(Request::Detach { pid: 100 }));
    debugger.finish();
    assert!(debugger.threads().is_empty());
}

#[test]
fn adopt_needs_a_stopped_parent() {
    let mut debugger = attached(&[(100, "target")]);
    assert_eq!(
        debugger.adopt(0, 200, "worker", 200, stop_status(19), 0),
        Err(Error::ProtocolMisuse)
    );
}

#[test]
fn spawned_threads_join_the_set_and_each_hit_calls_once() {
    let spawned = 3u32;
    let mut debugger = attached(&[(100, "target")]);
    debugger.stop_all();
    breakpoint(&mut debugger, 0x1000, callback("on_hit")).unwrap();
    debugger.apply_breakpoints(&vec![0]).unwrap();
    debugger.continue_all();
    for child in 0..spawned {
        assert_eq!(debugger.run(0, 100, clone_status()), Ok(Step::ReadCloneEvent));
        debugger.adopt(0, 200 + child, "worker", 200 + child as i32, stop_status(19), 0).unwrap();
    }
    debugger.finish();
    assert_eq!(debugger.threads().len(), 1 + spawned as usize);

    let mut invocations = 0;
    for index in 1..=spawned as usize {
        let pid = debugger.threads()[index].pid as i32;
        assert_eq!(debugger.run(index, pid, stop_status(SIGTRAP)), Ok(Step::ReadDebugStatus));
        invocations += calls(&debugger.dispatch(index, 1).unwrap()).len();
    }
    debugger.finish();
    assert_eq!(invocations, spawned as usize);
    assert_eq!(debugger.threads().len(), 1 + spawned as usize);
}

#[test]
fn an_interrupt_signal_goes_through_and_the_exit_is_reported() {
    let mut debugger = attached(&[(100, "target")]);
    debugger.on_thread_exited(callback("gone"));
    assert_eq!(
        debugger.run(0, 100, stop_status(SIGINT)),
        Ok(Step::Perform(vec![kernel(resume(100, Some(SIGINT)))]))
    );
    debugger.finish();
    assert_eq!(debugger.threads().len(), 1);
    assert_eq!(
        debugger.run(0, 100, SIGINT),
        Ok(Step::Perform(vec![Action::Invoke { callback: 0, thread: who(100, "target") }]))
    );
    debugger.finish();
    assert!(debugger.threads().is_empty());
}

#[test]
fn a_reloaded_script_replaces_the_breakpoints() {
    let mut debugger = attached(&[(100, "target")]);
    debugger.stop_all();
    breakpoint(&mut debugger, 0x1000, callback("old_hit")).unwrap();
    debugger.apply_breakpoints(&vec![0]).unwrap();
    debugger.continue_all();

    debugger.stop_all();
    assert_eq!(debugger.clear_breakpoints(&vec![1]), Ok(vec![poke(100, DR7, 0)]));
    debugger.clear_callbacks();
    assert_eq!(breakpoint(&mut debugger, 0x2000, callback("new_hit")), Ok(0));
    assert_eq!(
        debugger.apply_breakpoints(&vec![0]),
        Ok(vec![poke(100, 848, 0x2000), poke(100, DR7, 1)])
    );
    debugger.continue_all();

    debugger.run(0, 100, stop_status(SIGTRAP)).unwrap();
    let actions = debugger.dispatch(0, 1).unwrap();
    assert_eq!(calls(&actions), vec![0]);
    assert_eq!(debugger.callbacks().len(), 1);
    match &debugger.callbacks()[0] {
        RuntimeCallback::Breakpoint(slot, function) => {
            assert_eq!(*slot, 0);
            assert_eq!(function.fn_name(), "new_hit");
        }
        _ => panic!("the callback of the new breakpoint is missing"),
    }
    assert_eq!(debugger.breakpoints().len(), 1);
    assert_eq!(debugger.breakpoints()[0].address(), 0x2000);
}

#[test]
fn a_removed_breakpoint_calls_nothing_any_more() {
    let mut debugger = attached(&[(100, "target"), (101, "worker")]);
    debugger.stop_all();
    breakpoint(&mut debugger, 0x1000, callback("old_hit")).unwrap();
    debugger.on_thread_exited(callback("gone"));
    debugger.apply_breakpoints(&vec![0, 0]).unwrap();
    debugger.continue_all();

    debugger.stop_all();
    debugger.clear_breakpoints(&vec![1, 1]).unwrap();
    debugger.continue_all();
    for dr6 in 0..16u64 {
        for index in 0..2 {
            let pid = debugger.threads()[index].pid as i32;
            debugger.run(index, pid, stop_status(SIGTRAP)).unwrap();
            assert!(calls(&debugger.dispatch(index, dr6).unwrap()).is_empty());
        }
    }
}

#[test]
fn detach_switches_off_what_it_can_and_lets_every_thread_go() {
    let mut debugger = attached(&[(100, "a"), (101, "b"), (102, "c")]);
    breakpoint(&mut debugger, 0x1000, callback("on_hit")).unwrap();
    breakpoint(&mut debugger, 0x2000, callback("on_hit")).unwrap();
    debugger.run(2, 102, 0).unwrap();
    debugger.stop_all();
    assert_eq!(
        debugger.detach(&vec![Some(0b0101), None, Some(0b0101)]),
        vec![
            poke(100, DR7, 0b0100),
            poke(100, DR7, 0),
            Request::Detach { pid: 100 },
            Request::Detach { pid: 101 },
            Request::Detach { pid: 102 },
        ]
    );
    assert_eq!(
        states(&debugger),
        vec![ThreadState::Detached, ThreadState::Detached, ThreadState::Detached]
    );
}

#[test]
fn finish_keeps_the_order_of_the_threads() {
    let mut debugger = attached(&[(100, "a"), (101, "b"), (102, "c"), (103, "d")]);
    debugger.run(1, 101, 0).unwrap();
    debugger.run(3, 103, clone_status()).unwrap();
    debugger.adopt(3, 104, "e", 104, stop_status(19), 0).unwrap();
    debugger.drop_thread(2).unwrap();
    debugger.finish();
    let pids: Vec<u32> = debugger.threads().iter().map(|thread| thread.pid).collect();
    assert_eq!(pids, vec![100, 103, 104]);
}
