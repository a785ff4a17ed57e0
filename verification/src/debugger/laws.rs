use vstd::prelude::*;

use crate::debugger::plans::{
    answers, dispatch_actions, dr6_acknowledged, handled, handled_mask, hit_actions, invokes,
    is_clone_stop, is_live, is_slot_callback, lifecycle_callbacks, spec_next_slot,
};
use crate::debugger::plans::{dr7_installed, dr7_removed};
use crate::debugger::{Action, Debugger, Occasion, RuntimeCallback};
use crate::hwbp::{
    dr6_hit, dr7_condition, dr7_is_enabled, dr7_length, lemma_disable_clears_only_enable,
    lemma_disable_keeps_other_slots, lemma_enable_fields, lemma_enable_keeps_other_slots,
    length_code, length_of_code, HardwareBreakpoint, SLOT_COUNT,
};
use crate::runtime::thread::RhaiThread;
use crate::thread::Thread;
use crate::util::ptrace::SIGTRAP;
use crate::util::signal::stop_signal;

verus! {

/// A clone stop is a stop by the trap signal: a stop by any other signal
/// is no clone stop.
pub proof fn lemma_clone_stop_is_a_trap(status: i32)
    ensures
        is_clone_stop(status) ==> stop_signal(status) == SIGTRAP,
        is_clone_stop(status) <==> status >> 8 == 0x305,
{
    assert(5i32 | (3i32 << 8) == 0x305) by (bit_vector);
    assert(status >> 8 == 0x305 ==> (status >> 8) & 0xff == 5) by (bit_vector);
}

/// The live breakpoints of an engine number at most four, and the one
/// registered as the `i`-th holds slot `i`: slots are given out in the
/// order 0, 1, 2, 3. With no live breakpoint the next slot is 0, so the
/// order starts over once the breakpoints are cleared; with four there is
/// no next slot.
pub proof fn lemma_slots_in_order(debugger: Debugger)
    requires
        debugger.wf(),
    ensures
        debugger@.breakpoints.len() <= SLOT_COUNT,
        forall|live: nat| live < SLOT_COUNT ==> spec_next_slot(live) == Some(live as usize),
        forall|live: nat| live >= SLOT_COUNT ==> spec_next_slot(live) is None,
        spec_next_slot(debugger@.breakpoints.len()) is None <==> debugger@.breakpoints.len()
            == SLOT_COUNT,
        forall|i: int|
            0 <= i < debugger@.breakpoints.len() ==> (#[trigger] debugger@.breakpoints[i]).dr()
                == i,
        forall|i: int, j: int|
            0 <= i < j < debugger@.breakpoints.len() ==> debugger@.breakpoints[i].dr()
                != debugger@.breakpoints[j].dr(),
{
}

/// Once the live breakpoints are programmed into a thread, DR7 of the
/// thread reads back every one of them: the slot of each breakpoint is
/// enabled and holds the condition and the length of the breakpoint,
/// whatever DR7 held before.
pub proof fn lemma_installed_breakpoints_read_back(
    breakpoints: Seq<HardwareBreakpoint>,
    n: nat,
    dr7: u64,
    i: int,
)
    requires
        n <= breakpoints.len() <= SLOT_COUNT,
        forall|k: int|
            0 <= k < breakpoints.len() ==> (#[trigger] breakpoints[k]).wf() && breakpoints[k].dr()
                == k,
        0 <= i < n,
    ensures
        ({
            let programmed = dr7_installed(breakpoints, n, dr7);
            &&& dr7_is_enabled(programmed, i as u64)
            &&& dr7_condition(programmed, i as u64) == breakpoints[i].kind().condition()
            &&& dr7_length(programmed, i as u64) == length_code(breakpoints[i].length())
            &&& length_of_code(dr7_length(programmed, i as u64)) == breakpoints[i].length()
        }),
    decreases n,
{
    let last = breakpoints[n - 1];
    let before = dr7_installed(breakpoints, (n - 1) as nat, dr7);
    assert(last.wf() && last.dr() == n - 1);
    assert(breakpoints[i].wf());
    if i == n - 1 {
        lemma_enable_fields(before, last.dr(), last.kind(), last.length());
    } else {
        lemma_installed_breakpoints_read_back(breakpoints, (n - 1) as nat, dr7, i);
        lemma_enable_keeps_other_slots(
            before,
            last.dr(),
            i as usize,
            last.kind().condition() as u64,
            length_code(last.length()),
        );
    }
}

/// Once the live breakpoints are switched off in a thread, none of their
/// slots is enabled in DR7 of the thread, whatever DR7 held before.
pub proof fn lemma_removed_breakpoints_are_off(
    breakpoints: Seq<HardwareBreakpoint>,
    n: nat,
    dr7: u64,
    i: int,
)
    requires
        n <= breakpoints.len() <= SLOT_COUNT,
        forall|k: int|
            0 <= k < breakpoints.len() ==> (#[trigger] breakpoints[k]).wf() && breakpoints[k].dr()
                == k,
        0 <= i < n,
    ensures
        !dr7_is_enabled(dr7_removed(breakpoints, n, dr7), i as u64),
    decreases n,
{
    let last = breakpoints[n - 1];
    let before = dr7_removed(breakpoints, (n - 1) as nat, dr7);
    assert(last.wf() && last.dr() == n - 1);
    if i == n - 1 {
        lemma_disable_clears_only_enable(before, last.dr());
    } else {
        lemma_removed_breakpoints_are_off(breakpoints, (n - 1) as nat, dr7, i);
        lemma_disable_keeps_other_slots(before, last.dr(), i as usize);
    }
}

/// After a trap is seen to, DR6 is what it was before with the bits of the
/// handled slots cleared: a slot is still reported exactly when it was
/// reported before and its callbacks did not run, and no other bit of DR6
/// has changed.
pub proof fn lemma_dr6_after_dispatch(dr6: u64, registered: nat, n: nat)
    requires
        n <= 4,
    ensures
        dr6_acknowledged(dr6, registered, n) == dr6 & !handled_mask(dr6, registered, n),
        handled_mask(dr6, registered, n) & !0xfu64 == 0,
        forall|slot: nat|
            slot < 4 ==> (#[trigger] dr6_hit(dr6_acknowledged(dr6, registered, n), slot as u64) <==> (
            dr6_hit(dr6, slot as u64) && !(slot < n && handled(dr6, registered, slot)))),
    decreases n,
{
    if n == 0 {
        assert(dr6 & !0u64 == dr6) by (bit_vector);
        assert(0u64 & !0xfu64 == 0) by (bit_vector);
    } else {
        let m = (n - 1) as nat;
        lemma_dr6_after_dispatch(dr6, registered, m);
        let before = dr6_acknowledged(dr6, registered, m);
        let mask = handled_mask(dr6, registered, m);
        let bit = m as u64;
        if handled(dr6, registered, m) {
            assert((dr6 & !mask) & !(1u64 << bit) == dr6 & !(mask | (1u64 << bit)))
                by (bit_vector);
            assert((mask | (1u64 << bit)) & !0xfu64 == 0) by (bit_vector)
                requires
                    mask & !0xfu64 == 0,
                    bit < 4,
            ;
            assert forall|slot: nat| slot < 4 implies (#[trigger] dr6_hit(
                dr6_acknowledged(dr6, registered, n),
                slot as u64,
            ) <==> (dr6_hit(dr6, slot as u64) && !(slot < n && handled(dr6, registered, slot)))) by {
                crate::hwbp::lemma_dr6_cleared(before, m as usize, slot as usize);
            }
        }
    }
}

/// Every call that seeing to a trap asks for is the call of a callback
/// whose slot fired and holds a live breakpoint.
pub proof fn lemma_calls_answer_hits(
    callbacks: Seq<RuntimeCallback>,
    registered: nat,
    thread: Thread,
    dr6: u64,
)
    requires
        callbacks.len() <= usize::MAX,
    ensures
        forall|i: int|
            0 <= i < dispatch_actions(callbacks, registered, thread, dr6).len() ==> (
            #[trigger] dispatch_actions(callbacks, registered, thread, dr6)[i] matches Action::Invoke {
                callback,
                thread: who,
            } ==> {
                &&& who == RhaiThread::of(thread)
                &&& callback < callbacks.len()
                &&& callbacks[callback as int] matches RuntimeCallback::Breakpoint(slot, _)
                &&& slot < 4
                &&& handled(dr6, registered, slot as nat)
            }),
{
    let who = RhaiThread::of(thread);
    lemma_hit_actions_calls(callbacks, registered, thread.pid, who, dr6, 4);
}

/// The calls among the actions for the slots below `n` are calls of
/// callbacks of handled slots below `n`.
proof fn lemma_hit_actions_calls(
    callbacks: Seq<RuntimeCallback>,
    registered: nat,
    pid: u32,
    who: RhaiThread,
    dr6: u64,
    n: nat,
)
    requires
        callbacks.len() <= usize::MAX,
        n <= 4,
    ensures
        forall|i: int|
            0 <= i < hit_actions(callbacks, registered, pid, who, dr6, n).len() ==> (
            #[trigger] hit_actions(callbacks, registered, pid, who, dr6, n)[i] matches Action::Invoke {
                callback,
                thread,
            } ==> {
                &&& thread == who
                &&& callback < callbacks.len()
                &&& callbacks[callback as int] matches RuntimeCallback::Breakpoint(slot, _)
                &&& slot < n
                &&& handled(dr6, registered, slot as nat)
            }),
    decreases n,
{
    if n > 0 {
        let m = (n - 1) as nat;
        lemma_hit_actions_calls(callbacks, registered, pid, who, dr6, m);
        lemma_invokes_answer(callbacks, callbacks.len(), Occasion::Hit(m as usize), who);
    }
}

/// The calls for an occasion are calls of callbacks that answer it, and
/// nothing else.
pub proof fn lemma_invokes_answer(
    callbacks: Seq<RuntimeCallback>,
    n: nat,
    occasion: Occasion,
    who: RhaiThread,
)
    requires
        n <= callbacks.len() <= usize::MAX,
    ensures
        forall|i: int|
            0 <= i < invokes(callbacks, n, occasion, who).len() ==> (#[trigger] invokes(
                callbacks,
                n,
                occasion,
                who,
            )[i] matches Action::Invoke { callback, thread } && thread == who && callback < n
                && answers(callbacks[callback as int], occasion)),
    decreases n,
{
    if n > 0 {
        lemma_invokes_answer(callbacks, (n - 1) as nat, occasion, who);
    }
}

/// Once the breakpoints are cleared, a trap calls nothing, whatever DR6
/// reports: the thread is merely continued.
pub proof fn lemma_no_calls_without_breakpoints(
    callbacks: Seq<RuntimeCallback>,
    thread: Thread,
    dr6: u64,
)
    requires
        callbacks.len() <= usize::MAX,
    ensures
        forall|i: int|
            0 <= i < dispatch_actions(callbacks, 0, thread, dr6).len() ==> !(
            #[trigger] dispatch_actions(callbacks, 0, thread, dr6)[i] is Invoke),
{
    lemma_calls_answer_hits(callbacks, 0, thread, dr6);
}

/// Once the breakpoints are cleared, the callbacks of their slots are gone
/// for good: none of the callbacks that are left answers the hit of any
/// slot, whatever is registered afterwards.
pub proof fn lemma_cleared_callbacks_answer_no_hit(callbacks: Seq<RuntimeCallback>, slot: usize)
    ensures
        forall|i: int|
            0 <= i < lifecycle_callbacks(callbacks).len() ==> !answers(
                #[trigger] lifecycle_callbacks(callbacks)[i],
                Occasion::Hit(slot),
            ),
{
    let keep = |callback: RuntimeCallback| !is_slot_callback(callback);
    callbacks.filter_lemma(keep);
    assert forall|i: int| 0 <= i < lifecycle_callbacks(callbacks).len() implies !answers(
        #[trigger] lifecycle_callbacks(callbacks)[i],
        Occasion::Hit(slot),
    ) by {
        assert(keep(callbacks.filter(keep)[i]));
    }
}

/// When no thread has exited or was detached during a sweep, the sweep ends
/// with every thread it began with and every thread adopted on the way: a
/// set of one thread that adopts `k` threads holds `1 + k`.
pub proof fn lemma_adoption_grows_the_set(threads: Seq<Thread>, adopted: Seq<Thread>)
    requires
        forall|i: int| 0 <= i < threads.len() ==> is_live(#[trigger] threads[i]),
    ensures
        threads.filter(|thread: Thread| is_live(thread)) + adopted == threads + adopted,
        (threads.filter(|thread: Thread| is_live(thread)) + adopted).len() == threads.len()
            + adopted.len(),
{
    lemma_all_live(threads);
}

/// Filtering the live threads out of a sequence in which every thread is
/// live changes nothing.
proof fn lemma_all_live(threads: Seq<Thread>)
    requires
        forall|i: int| 0 <= i < threads.len() ==> is_live(#[trigger] threads[i]),
    ensures
        threads.filter(|thread: Thread| is_live(thread)) == threads,
    decreases threads.len(),
{
    reveal_with_fuel(Seq::filter, 2);
    if threads.len() > 0 {
        lemma_all_live(threads.drop_last());
        assert(threads.drop_last().push(threads.last()) == threads);
    }
}

} // verus!
