use vstd::prelude::*;

use crate::debugger::{Action, Occasion, RuntimeCallback, StepView};
use crate::hwbp::{dr6_cleared, dr6_hit, hit_slots, HardwareBreakpoint, SLOT_COUNT};
use crate::runtime::thread::RhaiThread;
use crate::thread::{Thread, ThreadState};
use crate::util::ptrace::{dr_offset, Request, DEFAULT_PTRACE_OPTIONS, SIGTRAP};
use crate::util::signal::{spec_wait_nonblock, stop_signal, WaitStatus};

verus! {

/// The requests that attach one task: seize it, interrupt it and reap the
/// stop, set the tracer options, and let it run again.
pub open spec fn seize_requests(pid: u32) -> Seq<Request> {
    seq![
        Request::Seize { pid },
        Request::Interrupt { pid },
        Request::Wait { pid },
        Request::SetOptions { pid, options: DEFAULT_PTRACE_OPTIONS },
        Request::Continue { pid, signal: None },
    ]
}

/// The requests that attach the first `n` of `tasks`, task after task.
pub open spec fn attach_requests(tasks: Seq<(u32, String)>, n: nat) -> Seq<Request>
    decreases n,
{
    if n == 0 {
        Seq::empty()
    } else {
        attach_requests(tasks, (n - 1) as nat) + seize_requests(tasks[n - 1].0)
    }
}

/// The requests that stop the first `n` of `threads`: each running thread is
/// interrupted and its stop is reaped, the others are left alone.
pub open spec fn stop_requests(threads: Seq<Thread>, n: nat) -> Seq<Request>
    decreases n,
{
    if n == 0 {
        Seq::empty()
    } else if threads[n - 1].state == ThreadState::Running {
        stop_requests(threads, (n - 1) as nat).push(
            Request::Interrupt { pid: threads[n - 1].pid },
        ).push(Request::Wait { pid: threads[n - 1].pid })
    } else {
        stop_requests(threads, (n - 1) as nat)
    }
}

/// The requests that resume the first `n` of `threads`: each thread that is
/// stopped under the tracer is continued without a signal.
pub open spec fn continue_requests(threads: Seq<Thread>, n: nat) -> Seq<Request>
    decreases n,
{
    if n == 0 {
        Seq::empty()
    } else if threads[n - 1].state == ThreadState::Tracing {
        continue_requests(threads, (n - 1) as nat).push(
            Request::Continue { pid: threads[n - 1].pid, signal: None },
        )
    } else {
        continue_requests(threads, (n - 1) as nat)
    }
}

/// DR7 of a thread after the first `n` of `breakpoints` are programmed into
/// it one after the other, starting from `dr7`.
pub open spec fn dr7_installed(breakpoints: Seq<HardwareBreakpoint>, n: nat, dr7: u64) -> u64
    decreases n,
{
    if n == 0 {
        dr7
    } else {
        breakpoints[n - 1].spec_enable(dr7_installed(breakpoints, (n - 1) as nat, dr7))
    }
}

/// The requests that program the first `n` of `breakpoints` into task
/// `pid`, whose DR7 holds `dr7`: for each breakpoint the address register of
/// its slot, then DR7.
pub open spec fn install_requests(
    pid: u32,
    breakpoints: Seq<HardwareBreakpoint>,
    n: nat,
    dr7: u64,
) -> Seq<Request>
    decreases n,
{
    if n == 0 {
        Seq::empty()
    } else {
        install_requests(pid, breakpoints, (n - 1) as nat, dr7).push(
            Request::PokeUser {
                pid,
                offset: dr_offset(breakpoints[n - 1].dr()),
                word: breakpoints[n - 1].address(),
            },
        ).push(
            Request::PokeUser {
                pid,
                offset: dr_offset(7),
                word: dr7_installed(breakpoints, n, dr7),
            },
        )
    }
}

/// The requests that program all of `breakpoints` into the first `n` of
/// `threads`, thread after thread; `dr7[i]` is what DR7 of thread `i` holds.
pub open spec fn apply_requests(
    threads: Seq<Thread>,
    breakpoints: Seq<HardwareBreakpoint>,
    dr7: Seq<u64>,
    n: nat,
) -> Seq<Request>
    decreases n,
{
    if n == 0 {
        Seq::empty()
    } else {
        apply_requests(threads, breakpoints, dr7, (n - 1) as nat) + install_requests(
            threads[n - 1].pid,
            breakpoints,
            breakpoints.len(),
            dr7[n - 1],
        )
    }
}

/// DR7 of a thread after the first `n` of `breakpoints` are switched off in
/// it one after the other, starting from `dr7`.
pub open spec fn dr7_removed(breakpoints: Seq<HardwareBreakpoint>, n: nat, dr7: u64) -> u64
    decreases n,
{
    if n == 0 {
        dr7
    } else {
        breakpoints[n - 1].spec_disable(dr7_removed(breakpoints, (n - 1) as nat, dr7))
    }
}

/// The requests that switch the first `n` of `breakpoints` off in task
/// `pid`, whose DR7 holds `dr7`: one write of DR7 for each breakpoint.
pub open spec fn remove_requests(
    pid: u32,
    breakpoints: Seq<HardwareBreakpoint>,
    n: nat,
    dr7: u64,
) -> Seq<Request>
    decreases n,
{
    if n == 0 {
        Seq::empty()
    } else {
        remove_requests(pid, breakpoints, (n - 1) as nat, dr7).push(
            Request::PokeUser {
                pid,
                offset: dr_offset(7),
                word: dr7_removed(breakpoints, n, dr7),
            },
        )
    }
}

/// The requests that switch all of `breakpoints` off in the first `n` of
/// `threads`, thread after thread; `dr7[i]` is what DR7 of thread `i` holds.
pub open spec fn clear_requests(
    threads: Seq<Thread>,
    breakpoints: Seq<HardwareBreakpoint>,
    dr7: Seq<u64>,
    n: nat,
) -> Seq<Request>
    decreases n,
{
    if n == 0 {
        Seq::empty()
    } else {
        clear_requests(threads, breakpoints, dr7, (n - 1) as nat) + remove_requests(
            threads[n - 1].pid,
            breakpoints,
            breakpoints.len(),
            dr7[n - 1],
        )
    }
}

/// The slot that the next breakpoint gets when `live` breakpoints are
/// registered: slots are given out in the order 0, 1, 2, 3, and a fifth
/// breakpoint gets none.
pub open spec fn spec_next_slot(live: nat) -> Option<usize> {
    if live < SLOT_COUNT {
        Some(live as usize)
    } else {
        None
    }
}

/// Tells whether every one of `threads` is stopped under the tracer.
pub open spec fn all_tracing(threads: Seq<Thread>) -> bool {
    forall|i: int| 0 <= i < threads.len() ==> (#[trigger] threads[i]).state == ThreadState::Tracing
}

/// Tells whether a callback belongs to a breakpoint slot.
pub open spec fn is_slot_callback(callback: RuntimeCallback) -> bool {
    callback is Breakpoint
}

/// The callbacks that belong to no breakpoint slot, in their order.
pub open spec fn lifecycle_callbacks(callbacks: Seq<RuntimeCallback>) -> Seq<RuntimeCallback> {
    callbacks.filter(|callback: RuntimeCallback| !is_slot_callback(callback))
}

/// Tells whether `callback` is to be called on `occasion`.
pub open spec fn answers(callback: RuntimeCallback, occasion: Occasion) -> bool {
    match occasion {
        Occasion::Hit(slot) => callback matches RuntimeCallback::Breakpoint(s, _) && s == slot,
        Occasion::ThreadCreated => callback is ThreadCreated,
        Occasion::ThreadExited => callback is ThreadExited,
    }
}

/// The calls of those among the first `n` of `callbacks` that answer
/// `occasion`, in the order of the table, each on behalf of `who`.
pub open spec fn invokes(
    callbacks: Seq<RuntimeCallback>,
    n: nat,
    occasion: Occasion,
    who: RhaiThread,
) -> Seq<Action>
    decreases n,
{
    if n == 0 {
        Seq::empty()
    } else if answers(callbacks[n - 1], occasion) {
        invokes(callbacks, (n - 1) as nat, occasion, who).push(
            Action::Invoke { callback: (n - 1) as usize, thread: who },
        )
    } else {
        invokes(callbacks, (n - 1) as nat, occasion, who)
    }
}

/// The status word of a clone stop: a stop by the trap signal that carries
/// the clone event in its third byte.
pub open spec fn is_clone_stop(status: i32) -> bool {
    status >> 8 == (SIGTRAP | (3i32 << 8))
}

/// Tells whether the hit of `slot` that `dr6` may report is handled: the
/// slot fired and one of the `registered` breakpoints holds it.
pub open spec fn handled(dr6: u64, registered: nat, slot: nat) -> bool {
    dr6_hit(dr6, slot as u64) && slot < registered
}

/// Tells whether one of the slots below `n` is handled.
pub open spec fn any_handled(dr6: u64, registered: nat, n: nat) -> bool
    decreases n,
{
    n > 0 && (handled(dr6, registered, (n - 1) as nat) || any_handled(
        dr6,
        registered,
        (n - 1) as nat,
    ))
}

/// DR6 after the hits of the handled slots below `n` are acknowledged, slot
/// after slot.
pub open spec fn dr6_acknowledged(dr6: u64, registered: nat, n: nat) -> u64
    decreases n,
{
    if n == 0 {
        dr6
    } else if handled(dr6, registered, (n - 1) as nat) {
        dr6_cleared(dr6_acknowledged(dr6, registered, (n - 1) as nat), (n - 1) as u64)
    } else {
        dr6_acknowledged(dr6, registered, (n - 1) as nat)
    }
}

/// What is done about the slots below `n` when task `pid` trapped with
/// `dr6`: for each handled slot, in increasing order, the callbacks of the
/// slot are called and the hit is acknowledged in DR6. The registers are
/// fetched once, before the first call.
pub open spec fn hit_actions(
    callbacks: Seq<RuntimeCallback>,
    registered: nat,
    pid: u32,
    who: RhaiThread,
    dr6: u64,
    n: nat,
) -> Seq<Action>
    decreases n,
{
    if n == 0 {
        Seq::empty()
    } else if handled(dr6, registered, (n - 1) as nat) {
        let earlier = hit_actions(callbacks, registered, pid, who, dr6, (n - 1) as nat);
        let fetched = if any_handled(dr6, registered, (n - 1) as nat) {
            earlier
        } else {
            earlier.push(Action::Kernel(Request::GetRegs { pid }))
        };
        (fetched + invokes(callbacks, callbacks.len(), Occasion::Hit((n - 1) as usize), who)).push(
            Action::Kernel(
                Request::PokeUser {
                    pid,
                    offset: dr_offset(6),
                    word: dr6_acknowledged(dr6, registered, n),
                },
            ),
        )
    } else {
        hit_actions(callbacks, registered, pid, who, dr6, (n - 1) as nat)
    }
}

/// What is done when `thread` trapped and its DR6 holds `dr6`.
///
/// If no slot fired, the trap is not the tracer's: the thread is continued
/// with the trap signal. Otherwise the handled slots are seen to and the
/// thread is continued without a signal.
pub open spec fn dispatch_actions(
    callbacks: Seq<RuntimeCallback>,
    registered: nat,
    thread: Thread,
    dr6: u64,
) -> Seq<Action> {
    if hit_slots(dr6).len() == 0 {
        seq![Action::Kernel(Request::Continue { pid: thread.pid, signal: Some(SIGTRAP) })]
    } else {
        hit_actions(callbacks, registered, thread.pid, RhaiThread::of(thread), dr6, 4).push(
            Action::Kernel(Request::Continue { pid: thread.pid, signal: None }),
        )
    }
}

/// The kernel requests `requests` as actions.
pub open spec fn kernel_actions(requests: Seq<Request>) -> Seq<Action> {
    requests.map_values(|request: Request| Action::Kernel(request))
}

/// What is done to adopt `child`, a new thread of `parent` that was reaped
/// in its first stop and whose DR7 holds `dr7`: the child is given the
/// tracer options and the live breakpoints, the thread-created callbacks
/// are called for it, and the child, then the parent, are continued without
/// a signal.
pub open spec fn adopt_actions(
    callbacks: Seq<RuntimeCallback>,
    breakpoints: Seq<HardwareBreakpoint>,
    parent: Thread,
    child: Thread,
    dr7: u64,
) -> Seq<Action> {
    seq![
        Action::Kernel(Request::SetOptions { pid: child.pid, options: DEFAULT_PTRACE_OPTIONS }),
    ] + kernel_actions(install_requests(child.pid, breakpoints, breakpoints.len(), dr7))
        + invokes(callbacks, callbacks.len(), Occasion::ThreadCreated, RhaiThread::of(child))
        + seq![
        Action::Kernel(Request::Continue { pid: child.pid, signal: None }),
        Action::Kernel(Request::Continue { pid: parent.pid, signal: None }),
    ]
}

/// The requests that let go of the first `n` of `threads`: in each thread
/// that is stopped under the tracer and whose DR7 could be read, the
/// breakpoints are switched off; then the thread is detached. `dr7[i]` is
/// what DR7 of thread `i` holds, if it could be read.
pub open spec fn detach_requests(
    threads: Seq<Thread>,
    breakpoints: Seq<HardwareBreakpoint>,
    dr7: Seq<Option<u64>>,
    n: nat,
) -> Seq<Request>
    decreases n,
{
    if n == 0 {
        Seq::empty()
    } else {
        let thread = threads[n - 1];
        let earlier = detach_requests(threads, breakpoints, dr7, (n - 1) as nat);
        let switched_off = if n - 1 < dr7.len() && dr7[n - 1] is Some && thread.state
            == ThreadState::Tracing {
            earlier + remove_requests(thread.pid, breakpoints, breakpoints.len(), dr7[n - 1]->Some_0)
        } else {
            earlier
        };
        switched_off.push(Request::Detach { pid: thread.pid })
    }
}

/// The state of a thread after the engine has looked at the outcome of a
/// non-blocking reap of it.
pub open spec fn state_after_reap(thread: Thread, res: i32, status: i32) -> ThreadState {
    match spec_wait_nonblock(res, status) {
        Err(_) => ThreadState::Detached,
        Ok(WaitStatus::Running) => thread.state,
        Ok(WaitStatus::Exited(_)) => ThreadState::Exited,
        Ok(WaitStatus::Signaled(_)) => ThreadState::Exited,
        Ok(WaitStatus::Stopped(word)) => if is_clone_stop(word) || stop_signal(word) == SIGTRAP {
            ThreadState::Tracing
        } else {
            ThreadState::Running
        },
    }
}

/// What the engine asks for after it has looked at the outcome of a
/// non-blocking reap of `thread`.
///
/// A failed reap drops the thread: it is detached. No status asks for
/// nothing. An exit or a kill calls the thread-exited callbacks. A clone
/// stop and a trap ask for more to be read. A stop by any other signal is
/// none of the tracer's business: the thread is continued with that signal.
pub open spec fn step_after_reap(
    callbacks: Seq<RuntimeCallback>,
    thread: Thread,
    res: i32,
    status: i32,
) -> StepView {
    match spec_wait_nonblock(res, status) {
        Err(_) => StepView::Perform(seq![Action::Kernel(Request::Detach { pid: thread.pid })]),
        Ok(WaitStatus::Running) => StepView::Idle,
        Ok(WaitStatus::Exited(_)) => StepView::Perform(
            invokes(callbacks, callbacks.len(), Occasion::ThreadExited, RhaiThread::of(thread)),
        ),
        Ok(WaitStatus::Signaled(_)) => StepView::Perform(
            invokes(callbacks, callbacks.len(), Occasion::ThreadExited, RhaiThread::of(thread)),
        ),
        Ok(WaitStatus::Stopped(word)) => if is_clone_stop(word) {
            StepView::ReadCloneEvent
        } else if stop_signal(word) == SIGTRAP {
            StepView::ReadDebugStatus
        } else {
            StepView::Perform(
                seq![
                    Action::Kernel(
                        Request::Continue { pid: thread.pid, signal: Some(stop_signal(word)) },
                    ),
                ],
            )
        },
    }
}

/// Tells whether a thread stays in the set when a sweep ends.
pub open spec fn is_live(thread: Thread) -> bool {
    thread.state != ThreadState::Exited && thread.state != ThreadState::Detached
}

/// The bits of the handled slots below `n`.
pub open spec fn handled_mask(dr6: u64, registered: nat, n: nat) -> u64
    decreases n,
{
    if n == 0 {
        0
    } else if handled(dr6, registered, (n - 1) as nat) {
        handled_mask(dr6, registered, (n - 1) as nat) | (1u64 << ((n - 1) as u64))
    } else {
        handled_mask(dr6, registered, (n - 1) as nat)
    }
}

} // verus!
