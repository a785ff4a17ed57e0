use vstd::prelude::*;

use crate::error::Error;
use crate::hwbp::{valid_length, HardwareBreakpoint, HardwareBreakpointType, SLOT_COUNT};
use crate::runtime::thread::RhaiThread;
use crate::thread::{trimmed, Thread, ThreadState};
use crate::util::ptrace::{default_options, event_clone, sigtrap, Request, SIGTRAP};
use crate::util::signal::{spec_wait, spec_wait_nonblock, stop_signal, wstopsig, WaitStatus};

pub mod laws;
pub mod plans;

use laws::lemma_clone_stop_is_a_trap;
use plans::{
    adopt_actions, all_tracing, any_handled, apply_requests, attach_requests, clear_requests,
    continue_requests, detach_requests, dispatch_actions, dr6_acknowledged, dr7_installed,
    dr7_removed, hit_actions, install_requests, invokes, is_live, is_slot_callback,
    kernel_actions, lifecycle_callbacks, remove_requests, seize_requests, spec_next_slot, state_after_reap,
    step_after_reap, stop_requests,
};

verus! {

/// `rhai::FnPtr`: a pointer to a script function. The core stores the
/// pointers that a script registers and hands them back when they are to be
/// called; it never looks inside one.
#[verifier::external_type_specification]
#[verifier::external_body]
pub struct ExFnPtr(rhai::FnPtr);

/// A script function to call when something happens in the target.
pub enum RuntimeCallback {
    /// Called with the registers and the thread when the breakpoint in the
    /// given slot fires.
    Breakpoint(usize, rhai::FnPtr),
    /// Called with the new thread when a traced thread has spawned one.
    ThreadCreated(rhai::FnPtr),
    /// Called with the thread when a traced thread has exited or was
    /// killed.
    ThreadExited(rhai::FnPtr),
}

/// One thing for the driver of the engine to do.
#[derive(Debug, Clone, PartialEq, Eq)]
pub enum Action {
    /// Make this kernel request.
    Kernel(Request),
    /// Call the script function at index `callback` of the callback table
    /// on behalf of `thread`. A breakpoint callback is also given the
    /// registers that were fetched last.
    Invoke { callback: usize, thread: RhaiThread },
}

/// The engine's data as mathematical sequences.
pub struct DebuggerView {
    /// The traced threads, in the order in which they were attached or
    /// adopted. The first one is the thread leader.
    pub threads: Seq<Thread>,
    /// The live breakpoints, in the order in which they were registered.
    pub breakpoints: Seq<HardwareBreakpoint>,
    /// The callback table, in the order of registration.
    pub callbacks: Seq<RuntimeCallback>,
    /// Threads adopted during the current sweep, which join `threads` when
    /// the sweep ends.
    pub adopted: Seq<Thread>,
}

/// The tracer engine: the traced threads, the live hardware breakpoints and
/// the script's callbacks.
///
/// The engine decides and its driver acts: every operation returns the
/// kernel requests, and the script calls, that carry it out, to be made in
/// the order given.
pub struct Debugger {
    threads: Vec<Thread>,
    breakpoints: Vec<HardwareBreakpoint>,
    callbacks: Vec<RuntimeCallback>,
    adopted: Vec<Thread>,
}

impl View for Debugger {
    type V = DebuggerView;

    closed spec fn view(&self) -> DebuggerView {
        DebuggerView {
            threads: self.threads@,
            breakpoints: self.breakpoints@,
            callbacks: self.callbacks@,
            adopted: self.adopted@,
        }
    }
}

/// What a callback is registered for.
#[derive(Debug, Clone, Copy, PartialEq, Eq, Structural)]
pub enum Occasion {
    /// The breakpoint in the given slot fired.
    Hit(usize),
    /// A traced thread has spawned a new one.
    ThreadCreated,
    /// A traced thread has exited or was killed.
    ThreadExited,
}

/// What the engine asks of its driver after it has looked at one thread.
#[derive(Debug, Clone, PartialEq, Eq)]
pub enum Step {
    /// Nothing.
    Idle,
    /// Carry out these actions, in this order.
    Perform(Vec<Action>),
    /// The thread trapped: read its DR6 and hand it to `dispatch`.
    ReadDebugStatus,
    /// The thread spawned another: read the event message, which is the new
    /// task's id, reap the new task, read its `comm` file and its DR7, and
    /// hand all of it to `adopt`.
    ReadCloneEvent,
}

/// A step with its actions as a sequence.
pub enum StepView {
    Idle,
    Perform(Seq<Action>),
    ReadDebugStatus,
    ReadCloneEvent,
}

impl View for Step {
    type V = StepView;

    open spec fn view(&self) -> StepView {
        match self {
            Step::Idle => StepView::Idle,
            Step::Perform(actions) => StepView::Perform(actions@),
            Step::ReadDebugStatus => StepView::ReadDebugStatus,
            Step::ReadCloneEvent => StepView::ReadCloneEvent,
        }
    }
}

impl Debugger {
    /// What holds of every engine: there are at most four live breakpoints,
    /// and the breakpoint registered as the `i`-th holds slot `i`.
    pub open spec fn wf(&self) -> bool {
        &&& self@.breakpoints.len() <= SLOT_COUNT
        &&& forall|i: int|
            0 <= i < self@.breakpoints.len() ==> (#[trigger] self@.breakpoints[i]).wf()
                && self@.breakpoints[i].dr() == i
    }

    /// An engine with no thread, no breakpoint and no callback.
    pub fn new() -> (debugger: Debugger)
        ensures
            debugger.wf(),
            debugger@.threads.len() == 0,
            debugger@.breakpoints.len() == 0,
            debugger@.callbacks.len() == 0,
            debugger@.adopted.len() == 0,
    {
        Debugger {
            threads: Vec::new(),
            breakpoints: Vec::new(),
            callbacks: Vec::new(),
            adopted: Vec::new(),
        }
    }

    /// The traced threads. The first one is the thread leader.
    pub fn threads(&self) -> (threads: &Vec<Thread>)
        ensures
            threads@ == self@.threads,
    {
        &self.threads
    }

    /// The id of the thread leader, the first thread that was attached.
    /// Reads and writes of the target's memory that name no thread go
    /// through it.
    pub fn thread_leader(&self) -> (leader: Option<u32>)
        ensures
            self@.threads.len() == 0 ==> leader is None,
            self@.threads.len() > 0 ==> leader == Some(self@.threads[0].pid),
    {
        if self.threads.len() > 0 {
            Some(self.threads[0].pid)
        } else {
            None
        }
    }

    /// The live breakpoints, in the order in which they were registered.
    pub fn breakpoints(&self) -> (breakpoints: &Vec<HardwareBreakpoint>)
        ensures
            breakpoints@ == self@.breakpoints,
    {
        &self.breakpoints
    }

    /// The callback table.
    pub fn callbacks(&self) -> (callbacks: &Vec<RuntimeCallback>)
        ensures
            callbacks@ == self@.callbacks,
    {
        &self.callbacks
    }

    /// The slot that the next breakpoint gets, if there is one left.
    pub fn next_slot(&self) -> (slot: Option<usize>)
        ensures
            slot == spec_next_slot(self@.breakpoints.len()),
    {
        if self.breakpoints.len() < SLOT_COUNT {
            Some(self.breakpoints.len())
        } else {
            None
        }
    }

    /// Registers a breakpoint on `address` with the script function to call
    /// when it fires, and returns its slot. Nothing is programmed into any
    /// thread: `apply_breakpoints` does that.
    ///
    /// Slots are given out in the order 0, 1, 2, 3. A fifth breakpoint is
    /// refused, and so is a length other than 1, 2, 4 or 8.
    pub fn register(
        &mut self,
        address: u64,
        kind: HardwareBreakpointType,
        length: usize,
        callback: rhai::FnPtr,
    ) -> (r: Result<usize, Error>)
        requires
            old(self).wf(),
        ensures
            final(self).wf(),
            final(self)@.threads == old(self)@.threads,
            final(self)@.adopted == old(self)@.adopted,
            r is Ok <==> spec_next_slot(old(self)@.breakpoints.len()) is Some && valid_length(
                length,
            ),
            r is Err ==> r == Err::<usize, Error>(Error::InvalidArgument) && final(self)@ == old(self)@,
            r matches Ok(slot) ==> {
                &&& Some(slot) == spec_next_slot(old(self)@.breakpoints.len())
                &&& final(self)@.breakpoints.len() == slot + 1
                &&& final(self)@.breakpoints.drop_last() == old(self)@.breakpoints
                &&& final(self)@.breakpoints[slot as int].address() == address
                &&& final(self)@.breakpoints[slot as int].kind() == kind
                &&& final(self)@.breakpoints[slot as int].length() == length
                &&& final(self)@.breakpoints[slot as int].dr() == slot
                &&& final(self)@.callbacks == old(self)@.callbacks.push(
                    RuntimeCallback::Breakpoint(slot, callback),
                )
            },
    {
        let slot = match self.next_slot() {
            Some(slot) => slot,
            None => {
                return Err(Error::InvalidArgument);
            },
        };
        let breakpoint = HardwareBreakpoint::new(address, kind, length, slot)?;
        self.callbacks.push(RuntimeCallback::Breakpoint(slot, callback));
        self.breakpoints.push(breakpoint);
        assert(self.breakpoints@.drop_last() == old(self).breakpoints@);
        Ok(slot)
    }

    /// Registers a script function to call when a traced thread has spawned
    /// a new one.
    pub fn on_thread_created(&mut self, callback: rhai::FnPtr)
        requires
            old(self).wf(),
        ensures
            final(self).wf(),
            final(self)@.threads == old(self)@.threads,
            final(self)@.adopted == old(self)@.adopted,
            final(self)@.breakpoints == old(self)@.breakpoints,
            final(self)@.callbacks == old(self)@.callbacks.push(
                RuntimeCallback::ThreadCreated(callback),
            ),
    {
        self.callbacks.push(RuntimeCallback::ThreadCreated(callback));
    }

    /// Registers a script function to call when a traced thread has exited
    /// or was killed.
    pub fn on_thread_exited(&mut self, callback: rhai::FnPtr)
        requires
            old(self).wf(),
        ensures
            final(self).wf(),
            final(self)@.threads == old(self)@.threads,
            final(self)@.adopted == old(self)@.adopted,
            final(self)@.breakpoints == old(self)@.breakpoints,
            final(self)@.callbacks == old(self)@.callbacks.push(
                RuntimeCallback::ThreadExited(callback),
            ),
    {
        self.callbacks.push(RuntimeCallback::ThreadExited(callback));
    }

    /// Forgets every callback.
    pub fn clear_callbacks(&mut self)
        requires
            old(self).wf(),
        ensures
            final(self).wf(),
            final(self)@.threads == old(self)@.threads,
            final(self)@.adopted == old(self)@.adopted,
            final(self)@.breakpoints == old(self)@.breakpoints,
            final(self)@.callbacks.len() == 0,
    {
        self.callbacks.clear();
    }

    /// Attaches to the tasks of a target. Each element of `tasks` is a task
    /// id with the content of that task's `comm` file, in the order in
    /// which the tasks are to be attached.
    ///
    /// Every task is seized, interrupted, given the tracer options and set
    /// running again; its record joins the traced threads in the running
    /// state. A target without a task cannot be attached.
    pub fn attach(&mut self, tasks: &Vec<(u32, String)>) -> (r: Result<Vec<Request>, Error>)
        requires
            old(self).wf(),
        ensures
            final(self).wf(),
            final(self)@.breakpoints == old(self)@.breakpoints,
            final(self)@.callbacks == old(self)@.callbacks,
            final(self)@.adopted == old(self)@.adopted,
            tasks@.len() == 0 ==> r == Err::<Vec<Request>, Error>(Error::AttachFailed) && final(self)@ == old(self)@,
            tasks@.len() > 0 ==> r is Ok && r->Ok_0@ == attach_requests(tasks@, tasks@.len()) && {
                &&& final(self)@.threads.len() == old(self)@.threads.len() + tasks@.len()
                &&& final(self)@.threads.subrange(0, old(self)@.threads.len() as int) == old(self)@.threads
                &&& forall|k: int|
                    old(self)@.threads.len() <= k < final(self)@.threads.len() ==> {
                        let thread = #[trigger] final(self)@.threads[k];
                        let task = tasks@[k - old(self)@.threads.len()];
                        &&& thread.pid == task.0
                        &&& thread.name@ == trimmed(task.1@)
                        &&& thread.state == ThreadState::Running
                    }
            },
    {
        if tasks.len() == 0 {
            return Err(Error::AttachFailed);
        }
        let mut requests: Vec<Request> = Vec::new();
        let mut i: usize = 0;
        while i < tasks.len()
            invariant
                i <= tasks@.len(),
                self.breakpoints@ == old(self).breakpoints@,
                self.callbacks@ == old(self).callbacks@,
                self.adopted@ == old(self).adopted@,
                requests@ == attach_requests(tasks@, i as nat),
                self.threads@.len() == old(self).threads@.len() + i,
                self.threads@.subrange(0, old(self).threads@.len() as int) == old(self).threads@,
                forall|k: int|
                    old(self).threads@.len() <= k < self.threads@.len() ==> {
                        let thread = #[trigger] self.threads@[k];
                        let task = tasks@[k - old(self).threads@.len()];
                        &&& thread.pid == task.0
                        &&& thread.name@ == trimmed(task.1@)
                        &&& thread.state == ThreadState::Running
                    },
            decreases tasks@.len() - i,
        {
            let ghost before = self.threads@;
            let mut thread = Thread::new(tasks[i].0, tasks[i].1.as_str());
            let seize = thread.attach();
            let stop = thread.interrupt()?;
            let options = thread.set_options(default_options())?;
            let resume = thread.cont(None)?;
            requests.push(seize);
            requests.push(stop.0);
            requests.push(stop.1);
            requests.push(options);
            requests.push(resume);
            self.threads.push(thread);
            assert(requests@ == attach_requests(tasks@, i as nat) + seize_requests(tasks@[i as int].0));
            assert(self.threads@.subrange(0, old(self).threads@.len() as int) == before.subrange(
                0,
                old(self).threads@.len() as int,
            ));
            assert forall|k: int| old(self).threads@.len() <= k < self.threads@.len() implies {
                let thread = #[trigger] self.threads@[k];
                let task = tasks@[k - old(self).threads@.len()];
                &&& thread.pid == task.0
                &&& thread.name@ == trimmed(task.1@)
                &&& thread.state == ThreadState::Running
            } by {
                if k < before.len() {
                    assert(self.threads@[k] == before[k]);
                }
            }
            i += 1;
        }
        Ok(requests)
    }

    /// Stops every running thread: it is interrupted, its stop is reaped,
    /// and it is then stopped under the tracer. The other threads are left
    /// as they are.
    pub fn stop_all(&mut self) -> (requests: Vec<Request>)
        requires
            old(self).wf(),
        ensures
            final(self).wf(),
            final(self)@.breakpoints == old(self)@.breakpoints,
            final(self)@.callbacks == old(self)@.callbacks,
            final(self)@.adopted == old(self)@.adopted,
            requests@ == stop_requests(old(self)@.threads, old(self)@.threads.len()),
            final(self)@.threads.len() == old(self)@.threads.len(),
            forall|i: int|
                0 <= i < old(self)@.threads.len() ==> #[trigger] final(self)@.threads[i] == (if old(self)@.threads[i].state == ThreadState::Running {
                    old(self)@.threads[i].with_state(ThreadState::Tracing)
                } else {
                    old(self)@.threads[i]
                }),
    {
        let mut requests: Vec<Request> = Vec::new();
        let mut i: usize = 0;
        while i < self.threads.len()
            invariant
                i <= self.threads@.len(),
                self.breakpoints@ == old(self).breakpoints@,
                self.callbacks@ == old(self).callbacks@,
                self.adopted@ == old(self).adopted@,
                self.threads@.len() == old(self).threads@.len(),
                requests@ == stop_requests(old(self).threads@, i as nat),
                forall|j: int|
                    0 <= j < i ==> #[trigger] self.threads@[j] == (if old(self).threads@[j].state
                        == ThreadState::Running {
                        old(self).threads@[j].with_state(ThreadState::Tracing)
                    } else {
                        old(self).threads@[j]
                    }),
                forall|j: int|
                    i <= j < self.threads@.len() ==> #[trigger] self.threads@[j] == old(self).threads@[j],
            decreases self.threads@.len() - i,
        {
            if self.threads[i].state == ThreadState::Running {
                match self.threads[i].interrupt() {
                    Ok(stop) => {
                        requests.push(stop.0);
                        requests.push(stop.1);
                    },
                    Err(_) => {},
                }
            }
            i += 1;
        }
        requests
    }

    /// Resumes every thread that is stopped under the tracer, without a
    /// signal. The other threads are left as they are.
    pub fn continue_all(&mut self) -> (requests: Vec<Request>)
        requires
            old(self).wf(),
        ensures
            final(self).wf(),
            final(self)@.breakpoints == old(self)@.breakpoints,
            final(self)@.callbacks == old(self)@.callbacks,
            final(self)@.adopted == old(self)@.adopted,
            requests@ == continue_requests(old(self)@.threads, old(self)@.threads.len()),
            final(self)@.threads.len() == old(self)@.threads.len(),
            forall|i: int|
                0 <= i < old(self)@.threads.len() ==> #[trigger] final(self)@.threads[i] == (if old(self)@.threads[i].state == ThreadState::Tracing {
                    old(self)@.threads[i].with_state(ThreadState::Running)
                } else {
                    old(self)@.threads[i]
                }),
    {
        let mut requests: Vec<Request> = Vec::new();
        let mut i: usize = 0;
        while i < self.threads.len()
            invariant
                i <= self.threads@.len(),
                self.breakpoints@ == old(self).breakpoints@,
                self.callbacks@ == old(self).callbacks@,
                self.adopted@ == old(self).adopted@,
                self.threads@.len() == old(self).threads@.len(),
                requests@ == continue_requests(old(self).threads@, i as nat),
                forall|j: int|
                    0 <= j < i ==> #[trigger] self.threads@[j] == (if old(self).threads@[j].state
                        == ThreadState::Tracing {
                        old(self).threads@[j].with_state(ThreadState::Running)
                    } else {
                        old(self).threads@[j]
                    }),
                forall|j: int|
                    i <= j < self.threads@.len() ==> #[trigger] self.threads@[j] == old(self).threads@[j],
            decreases self.threads@.len() - i,
        {
            if self.threads[i].is_traced() {
                match self.threads[i].cont(None) {
                    Ok(resume) => {
                        requests.push(resume);
                    },
                    Err(_) => {},
                }
            }
            i += 1;
        }
        requests
    }

    /// Tells whether every thread is stopped under the tracer.
    pub fn all_threads_traced(&self) -> (all: bool)
        ensures
            all == all_tracing(self@.threads),
    {
        let mut i: usize = 0;
        while i < self.threads.len()
            invariant
                i <= self.threads@.len(),
                forall|j: int| 0 <= j < i ==> (#[trigger] self.threads@[j]).state == ThreadState::Tracing,
            decreases self.threads@.len() - i,
        {
            if !self.threads[i].is_traced() {
                return false;
            }
            i += 1;
        }
        true
    }

    /// Programs every live breakpoint into every thread. `dr7[i]` is what
    /// DR7 of thread `i` holds now.
    ///
    /// All threads must be stopped under the tracer, and there must be one
    /// value of DR7 for each thread.
    pub fn apply_breakpoints(&self, dr7: &Vec<u64>) -> (r: Result<Vec<Request>, Error>)
        requires
            self.wf(),
        ensures
            dr7@.len() != self@.threads.len() ==> r == Err::<Vec<Request>, Error>(
                Error::InvalidArgument,
            ),
            dr7@.len() == self@.threads.len() && !all_tracing(self@.threads) ==> r == Err::<
                Vec<Request>,
                Error,
            >(Error::ProtocolMisuse),
            dr7@.len() == self@.threads.len() && all_tracing(self@.threads) ==> r is Ok
                && r->Ok_0@ == apply_requests(
                self@.threads,
                self@.breakpoints,
                dr7@,
                self@.threads.len(),
            ),
    {
        if dr7.len() != self.threads.len() {
            return Err(Error::InvalidArgument);
        }
        if !self.all_threads_traced() {
            return Err(Error::ProtocolMisuse);
        }
        let mut requests: Vec<Request> = Vec::new();
        let mut i: usize = 0;
        while i < self.threads.len()
            invariant
                i <= self.threads@.len(),
                dr7@.len() == self.threads@.len(),
                all_tracing(self.threads@),
                requests@ == apply_requests(self.threads@, self.breakpoints@, dr7@, i as nat),
            decreases self.threads@.len() - i,
        {
            let ghost done = requests@;
            let mut control = dr7[i];
            let mut j: usize = 0;
            while j < self.breakpoints.len()
                invariant
                    i < self.threads@.len(),
                    dr7@.len() == self.threads@.len(),
                    self.threads@[i as int].state == ThreadState::Tracing,
                    j <= self.breakpoints@.len(),
                    control == dr7_installed(self.breakpoints@, j as nat, dr7@[i as int]),
                    requests@ == done + install_requests(
                        self.threads@[i as int].pid,
                        self.breakpoints@,
                        j as nat,
                        dr7@[i as int],
                    ),
                decreases self.breakpoints@.len() - j,
            {
                let writes = self.threads[i].set_breakpoint(&self.breakpoints[j], control)?;
                control = self.breakpoints[j].enable(control);
                requests.push(writes.0);
                requests.push(writes.1);
                assert(requests@ == done + install_requests(
                    self.threads@[i as int].pid,
                    self.breakpoints@,
                    (j + 1) as nat,
                    dr7@[i as int],
                ));
                j += 1;
            }
            i += 1;
        }
        Ok(requests)
    }

    /// Switches every live breakpoint off in every thread, then forgets the
    /// breakpoints and the callbacks of their slots, so that the next
    /// breakpoint registered gets slot 0 again. `dr7[i]` is what DR7 of
    /// thread `i` holds now.
    ///
    /// All threads must be stopped under the tracer, and there must be one
    /// value of DR7 for each thread; otherwise nothing changes.
    pub fn clear_breakpoints(&mut self, dr7: &Vec<u64>) -> (r: Result<Vec<Request>, Error>)
        requires
            old(self).wf(),
        ensures
            final(self).wf(),
            final(self)@.threads == old(self)@.threads,
            final(self)@.adopted == old(self)@.adopted,
            dr7@.len() != old(self)@.threads.len() ==> r == Err::<Vec<Request>, Error>(
                Error::InvalidArgument,
            ),
            dr7@.len() == old(self)@.threads.len() && !all_tracing(old(self)@.threads) ==> r
                == Err::<Vec<Request>, Error>(Error::ProtocolMisuse),
            r is Err ==> final(self)@ == old(self)@,
            dr7@.len() == old(self)@.threads.len() && all_tracing(old(self)@.threads) ==> {
                &&& r is Ok
                &&& r->Ok_0@ == clear_requests(
                    old(self)@.threads,
                    old(self)@.breakpoints,
                    dr7@,
                    old(self)@.threads.len(),
                )
                &&& final(self)@.breakpoints.len() == 0
                &&& final(self)@.callbacks == lifecycle_callbacks(old(self)@.callbacks)
            },
    {
        if dr7.len() != self.threads.len() {
            return Err(Error::InvalidArgument);
        }
        if !self.all_threads_traced() {
            return Err(Error::ProtocolMisuse);
        }
        let mut requests: Vec<Request> = Vec::new();
        let mut i: usize = 0;
        while i < self.threads.len()
            invariant
                *self == *old(self),
                i <= self.threads@.len(),
                dr7@.len() == self.threads@.len(),
                all_tracing(self.threads@),
                requests@ == clear_requests(self.threads@, self.breakpoints@, dr7@, i as nat),
            decreases self.threads@.len() - i,
        {
            let ghost done = requests@;
            let mut control = dr7[i];
            let mut j: usize = 0;
            while j < self.breakpoints.len()
                invariant
                    *self == *old(self),
                    i < self.threads@.len(),
                    dr7@.len() == self.threads@.len(),
                    self.threads@[i as int].state == ThreadState::Tracing,
                    j <= self.breakpoints@.len(),
                    control == dr7_removed(self.breakpoints@, j as nat, dr7@[i as int]),
                    requests@ == done + remove_requests(
                        self.threads@[i as int].pid,
                        self.breakpoints@,
                        j as nat,
                        dr7@[i as int],
                    ),
                decreases self.breakpoints@.len() - j,
            {
                let write = self.threads[i].clear_breakpoint(&self.breakpoints[j], control)?;
                control = self.breakpoints[j].disable(control);
                requests.push(write);
                assert(requests@ == done + remove_requests(
                    self.threads@[i as int].pid,
                    self.breakpoints@,
                    (j + 1) as nat,
                    dr7@[i as int],
                ));
                j += 1;
            }
            i += 1;
        }
        self.breakpoints.clear();
        self.forget_slot_callbacks();
        Ok(requests)
    }

    /// Drops the callbacks that belong to breakpoint slots and keeps the
    /// others in their order.
    fn forget_slot_callbacks(&mut self)
        ensures
            final(self).threads == old(self).threads,
            final(self).breakpoints == old(self).breakpoints,
            final(self).adopted == old(self).adopted,
            final(self).callbacks@ == lifecycle_callbacks(old(self).callbacks@),
    {
        let ghost all = self.callbacks@;
        let ghost keep = |callback: RuntimeCallback| !is_slot_callback(callback);
        let ghost mut seen: int = 0;
        let mut i: usize = 0;
        while i < self.callbacks.len()
            invariant
                self.threads == old(self).threads,
                self.breakpoints == old(self).breakpoints,
                self.adopted == old(self).adopted,
                all == old(self).callbacks@,
                keep == |callback: RuntimeCallback| !is_slot_callback(callback),
                0 <= seen <= all.len(),
                i <= self.callbacks@.len(),
                self.callbacks@.len() - i == all.len() - seen,
                self.callbacks@.subrange(0, i as int) == all.subrange(0, seen).filter(keep),
                self.callbacks@.subrange(i as int, self.callbacks@.len() as int) == all.subrange(
                    seen,
                    all.len() as int,
                ),
            decreases self.callbacks@.len() - i,
        {
            let ghost before = self.callbacks@;
            assert(before[i as int] == all[seen]) by {
                assert(before.subrange(i as int, before.len() as int)[0] == all.subrange(
                    seen,
                    all.len() as int,
                )[0]);
            }
            assert(all.subrange(0, seen + 1).drop_last() == all.subrange(0, seen));
            reveal_with_fuel(Seq::filter, 2);
            let slot_callback = match &self.callbacks[i] {
                RuntimeCallback::Breakpoint(_, _) => true,
                _ => false,
            };
            if slot_callback {
                self.callbacks.remove(i);
                assert(self.callbacks@.subrange(0, i as int) == before.subrange(0, i as int));
                assert(self.callbacks@.subrange(i as int, self.callbacks@.len() as int)
                    == before.subrange(i as int, before.len() as int).subrange(
                    1,
                    before.len() - i,
                ));
                assert(all.subrange(seen, all.len() as int).subrange(1, all.len() - seen)
                    == all.subrange(seen + 1, all.len() as int));
            } else {
                assert(self.callbacks@.subrange(0, i + 1) == before.subrange(0, i as int).push(
                    before[i as int],
                ));
                assert(self.callbacks@.subrange(i + 1, self.callbacks@.len() as int)
                    == before.subrange(i as int, before.len() as int).subrange(
                    1,
                    before.len() - i,
                ));
                assert(all.subrange(seen, all.len() as int).subrange(1, all.len() - seen)
                    == all.subrange(seen + 1, all.len() as int));
                i += 1;
            }
            proof {
                seen = seen + 1;
            }
        }
        assert(all.subrange(0, seen) == all);
        assert(self.callbacks@.subrange(0, i as int) == self.callbacks@);
    }

    /// Appends to `actions` the calls of the callbacks that answer
    /// `occasion`, in the order of the table.
    fn invoke_all(&self, occasion: Occasion, who: &RhaiThread, actions: &mut Vec<Action>)
        ensures
            final(actions)@ == old(actions)@ + invokes(
                self.callbacks@,
                self.callbacks@.len(),
                occasion,
                *who,
            ),
    {
        let mut i: usize = 0;
        while i < self.callbacks.len()
            invariant
                i <= self.callbacks@.len(),
                actions@ == old(actions)@ + invokes(self.callbacks@, i as nat, occasion, *who),
            decreases self.callbacks@.len() - i,
        {
            let wanted = match (&self.callbacks[i], occasion) {
                (RuntimeCallback::Breakpoint(slot, _), Occasion::Hit(fired)) => *slot == fired,
                (RuntimeCallback::ThreadCreated(_), Occasion::ThreadCreated) => true,
                (RuntimeCallback::ThreadExited(_), Occasion::ThreadExited) => true,
                _ => false,
            };
            if wanted {
                actions.push(Action::Invoke { callback: i, thread: who.duplicate() });
            }
            i += 1;
        }
    }

    /// Takes in the outcome of a non-blocking reap of thread `index` during
    /// a sweep: `res` is what the wait call returned and `status` the status
    /// word it filled in. Says what is to be done about it.
    ///
    /// A stop by any signal other than the trap signal is passed on: the
    /// thread is continued with the very signal that stopped it.
    pub fn run(&mut self, index: usize, res: i32, status: i32) -> (r: Result<Step, Error>)
        requires
            old(self).wf(),
        ensures
            final(self).wf(),
            final(self)@.breakpoints == old(self)@.breakpoints,
            final(self)@.callbacks == old(self)@.callbacks,
            final(self)@.adopted == old(self)@.adopted,
            index >= old(self)@.threads.len() ==> r == Err::<Step, Error>(Error::InvalidArgument)
                && final(self)@ == old(self)@,
            index < old(self)@.threads.len() ==> {
                &&& r is Ok
                &&& r->Ok_0@ == step_after_reap(
                    old(self)@.callbacks,
                    old(self)@.threads[index as int],
                    res,
                    status,
                )
                &&& final(self)@.threads == old(self)@.threads.update(
                    index as int,
                    old(self)@.threads[index as int].with_state(
                        state_after_reap(old(self)@.threads[index as int], res, status),
                    ),
                )
            },
            index < old(self)@.threads.len() && spec_wait_nonblock(res, status) == Ok::<
                WaitStatus,
                Error,
            >(WaitStatus::Stopped(status)) && stop_signal(status) != SIGTRAP ==> r is Ok
                && r->Ok_0@ == StepView::Perform(
                seq![
                    Action::Kernel(
                        Request::Continue {
                            pid: old(self)@.threads[index as int].pid,
                            signal: Some(stop_signal(status)),
                        },
                    ),
                ],
            ),
    {
        if index >= self.threads.len() {
            return Err(Error::InvalidArgument);
        }
        proof {
            lemma_clone_stop_is_a_trap(status);
        }
        let ghost before = self.threads@;
        let mut actions: Vec<Action> = Vec::new();
        let step = match self.threads[index].wait_nonblocking(res, status) {
            Err(_) => {
                let detach = self.threads[index].detach();
                actions.push(Action::Kernel(detach));
                Step::Perform(actions)
            },
            Ok(WaitStatus::Running) => Step::Idle,
            Ok(WaitStatus::Exited(_)) | Ok(WaitStatus::Signaled(_)) => {
                let who = RhaiThread::from(&self.threads[index]);
                self.invoke_all(Occasion::ThreadExited, &who, &mut actions);
                Step::Perform(actions)
            },
            Ok(WaitStatus::Stopped(word)) => {
                let signal = wstopsig(word);
                if word >> 8 == (sigtrap() | (event_clone() << 8)) {
                    Step::ReadCloneEvent
                } else if signal == sigtrap() {
                    Step::ReadDebugStatus
                } else {
                    let resume = self.threads[index].cont(Some(signal))?;
                    actions.push(Action::Kernel(resume));
                    Step::Perform(actions)
                }
            },
        };
        assert(self.threads@ == before.update(
            index as int,
            before[index as int].with_state(state_after_reap(before[index as int], res, status)),
        ));
        Ok(step)
    }

    /// Sees to a trap of thread `index`, given what the thread's DR6 holds.
    ///
    /// For each slot that fired and holds a live breakpoint, in increasing
    /// order, the callbacks of the slot are called with the registers and
    /// the thread, and the slot's bit is cleared in DR6. The thread is then
    /// continued without a signal. If no slot fired at all, the trap came
    /// from elsewhere, and the thread is continued with the trap signal.
    ///
    /// The thread must be stopped under the tracer; otherwise nothing
    /// changes.
    pub fn dispatch(&mut self, index: usize, dr6: u64) -> (r: Result<Vec<Action>, Error>)
        requires
            old(self).wf(),
        ensures
            final(self).wf(),
            final(self)@.breakpoints == old(self)@.breakpoints,
            final(self)@.callbacks == old(self)@.callbacks,
            final(self)@.adopted == old(self)@.adopted,
            index >= old(self)@.threads.len() ==> r == Err::<Vec<Action>, Error>(
                Error::InvalidArgument,
            ),
            index < old(self)@.threads.len() && old(self)@.threads[index as int].state
                != ThreadState::Tracing ==> r == Err::<Vec<Action>, Error>(Error::ProtocolMisuse),
            r is Err ==> final(self)@ == old(self)@,
            index < old(self)@.threads.len() && old(self)@.threads[index as int].state
                == ThreadState::Tracing ==> {
                &&& r is Ok
                &&& r->Ok_0@ == dispatch_actions(
                    old(self)@.callbacks,
                    old(self)@.breakpoints.len(),
                    old(self)@.threads[index as int],
                    dr6,
                )
                &&& final(self)@.threads == old(self)@.threads.update(
                    index as int,
                    old(self)@.threads[index as int].with_state(ThreadState::Running),
                )
            },
    {
        if index >= self.threads.len() {
            return Err(Error::InvalidArgument);
        }
        if !self.threads[index].is_traced() {
            return Err(Error::ProtocolMisuse);
        }
        let ghost thread = self.threads@[index as int];
        let ghost registered = self.breakpoints@.len();
        let hits = self.threads[index].get_hit_breakpoints(dr6);
        let mut actions: Vec<Action> = Vec::new();
        if hits.len() == 0 {
            let resume = self.threads[index].cont(Some(sigtrap()))?;
            actions.push(Action::Kernel(resume));
            return Ok(actions);
        }
        let who = RhaiThread::from(&self.threads[index]);
        let mut fetched = false;
        let mut debug_status = dr6;
        let mut slot: usize = 0;
        while slot < SLOT_COUNT
            invariant
                *self == *old(self),
                index < self.threads@.len(),
                thread == self.threads@[index as int],
                thread.state == ThreadState::Tracing,
                registered == self.breakpoints@.len(),
                who == RhaiThread::of(thread),
                slot <= SLOT_COUNT,
                fetched == any_handled(dr6, registered, slot as nat),
                debug_status == dr6_acknowledged(dr6, registered, slot as nat),
                actions@ == hit_actions(
                    self.callbacks@,
                    registered,
                    thread.pid,
                    who,
                    dr6,
                    slot as nat,
                ),
            decreases SLOT_COUNT - slot,
        {
            if dr6 & (1u64 << (slot as u64)) != 0 && slot < self.breakpoints.len() {
                if !fetched {
                    let fetch = self.threads[index].get_regs()?;
                    actions.push(Action::Kernel(fetch));
                    fetched = true;
                }
                self.invoke_all(Occasion::Hit(slot), &who, &mut actions);
                let acknowledge = self.threads[index].clear_breakpoint_hit(slot, debug_status)?;
                debug_status = debug_status & !(1u64 << (slot as u64));
                actions.push(Action::Kernel(acknowledge));
            }
            slot += 1;
        }
        let resume = self.threads[index].cont(None)?;
        actions.push(Action::Kernel(resume));
        Ok(actions)
    }

    /// Adopts a thread that thread `index` has spawned. `child` is the new
    /// task's id, `comm` the content of its `comm` file, `res` and `status`
    /// the outcome of the blocking reap of its first stop, and `dr7` what
    /// its DR7 holds.
    ///
    /// If the reap shows the child stopped, it is given the tracer options
    /// and the live breakpoints, the thread-created callbacks are called
    /// for it, and it is continued; its record joins the set when the sweep
    /// ends. If the reap shows anything else, the child is not adopted. In
    /// both cases the parent is continued without a signal.
    ///
    /// The parent must be stopped under the tracer and the reap must have
    /// succeeded; otherwise nothing changes.
    pub fn adopt(
        &mut self,
        index: usize,
        child: u32,
        comm: &str,
        res: i32,
        status: i32,
        dr7: u64,
    ) -> (r: Result<Vec<Action>, Error>)
        requires
            old(self).wf(),
        ensures
            final(self).wf(),
            final(self)@.breakpoints == old(self)@.breakpoints,
            final(self)@.callbacks == old(self)@.callbacks,
            index >= old(self)@.threads.len() ==> r == Err::<Vec<Action>, Error>(
                Error::InvalidArgument,
            ),
            index < old(self)@.threads.len() && old(self)@.threads[index as int].state
                != ThreadState::Tracing ==> r == Err::<Vec<Action>, Error>(Error::ProtocolMisuse),
            index < old(self)@.threads.len() && old(self)@.threads[index as int].state
                == ThreadState::Tracing && spec_wait(res, status) is Err ==> r == Err::<
                Vec<Action>,
                Error,
            >(Error::KernelCallFailed),
            r is Err ==> final(self)@ == old(self)@,
            index < old(self)@.threads.len() && old(self)@.threads[index as int].state
                == ThreadState::Tracing && spec_wait(res, status) is Ok ==> {
                let parent = old(self)@.threads[index as int];
                &&& r is Ok
                &&& final(self)@.threads == old(self)@.threads.update(
                    index as int,
                    parent.with_state(ThreadState::Running),
                )
                &&& spec_wait(res, status)->Ok_0 is Stopped ==> {
                    &&& final(self)@.adopted.len() == old(self)@.adopted.len() + 1
                    &&& final(self)@.adopted.drop_last() == old(self)@.adopted
                    &&& final(self)@.adopted.last().pid == child
                    &&& final(self)@.adopted.last().name@ == trimmed(comm@)
                    &&& final(self)@.adopted.last().state == ThreadState::Running
                    &&& r->Ok_0@ == adopt_actions(
                        old(self)@.callbacks,
                        old(self)@.breakpoints,
                        parent,
                        final(self)@.adopted.last(),
                        dr7,
                    )
                }
                &&& !(spec_wait(res, status)->Ok_0 is Stopped) ==> {
                    &&& final(self)@.adopted == old(self)@.adopted
                    &&& r->Ok_0@ == seq![
                        Action::Kernel(Request::Continue { pid: parent.pid, signal: None }),
                    ]
                }
            },
    {
        if index >= self.threads.len() {
            return Err(Error::InvalidArgument);
        }
        if !self.threads[index].is_traced() {
            return Err(Error::ProtocolMisuse);
        }
        let ghost parent = self.threads@[index as int];
        let mut thread = Thread::new(child, comm);
        thread.state = ThreadState::Tracing;
        thread.wait(res, status)?;
        let mut actions: Vec<Action> = Vec::new();
        if thread.is_traced() {
            let who = RhaiThread::from(&thread);
            let options = thread.set_options(default_options())?;
            actions.push(Action::Kernel(options));
            let ghost head = actions@;
            let mut control = dr7;
            let mut j: usize = 0;
            while j < self.breakpoints.len()
                invariant
                    *self == *old(self),
                    thread.state == ThreadState::Tracing,
                    j <= self.breakpoints@.len(),
                    control == dr7_installed(self.breakpoints@, j as nat, dr7),
                    actions@ == head + kernel_actions(
                        install_requests(thread.pid, self.breakpoints@, j as nat, dr7),
                    ),
                decreases self.breakpoints@.len() - j,
            {
                let writes = thread.set_breakpoint(&self.breakpoints[j], control)?;
                control = self.breakpoints[j].enable(control);
                actions.push(Action::Kernel(writes.0));
                actions.push(Action::Kernel(writes.1));
                assert(actions@ == head + kernel_actions(
                    install_requests(thread.pid, self.breakpoints@, (j + 1) as nat, dr7),
                ));
                j += 1;
            }
            self.invoke_all(Occasion::ThreadCreated, &who, &mut actions);
            let resume = thread.cont(None)?;
            actions.push(Action::Kernel(resume));
            self.adopted.push(thread);
            assert(self.adopted@.drop_last() == old(self).adopted@);
        }
        let resume = self.threads[index].cont(None)?;
        actions.push(Action::Kernel(resume));
        assert(self.threads@ == old(self).threads@.update(
            index as int,
            parent.with_state(ThreadState::Running),
        ));
        Ok(actions)
    }

    /// Drops thread `index` after a kernel request about it has failed: the
    /// thread is detached, and leaves the set when the sweep ends. Whether
    /// the detach request itself succeeds does not matter.
    pub fn drop_thread(&mut self, index: usize) -> (r: Result<Request, Error>)
        requires
            old(self).wf(),
        ensures
            final(self).wf(),
            final(self)@.breakpoints == old(self)@.breakpoints,
            final(self)@.callbacks == old(self)@.callbacks,
            final(self)@.adopted == old(self)@.adopted,
            index >= old(self)@.threads.len() ==> r == Err::<Request, Error>(
                Error::InvalidArgument,
            ) && final(self)@ == old(self)@,
            index < old(self)@.threads.len() ==> r == Ok::<Request, Error>(
                Request::Detach { pid: old(self)@.threads[index as int].pid },
            ) && final(self)@.threads == old(self)@.threads.update(
                index as int,
                old(self)@.threads[index as int].with_state(ThreadState::Detached),
            ),
    {
        if index >= self.threads.len() {
            return Err(Error::InvalidArgument);
        }
        let ghost before = self.threads@;
        let detach = self.threads[index].detach();
        assert(self.threads@ == before.update(
            index as int,
            before[index as int].with_state(ThreadState::Detached),
        ));
        Ok(detach)
    }

    /// Ends a sweep: the threads that exited or were detached leave the
    /// set, and the threads adopted during the sweep join it at the end, in
    /// the order in which they were adopted.
    pub fn finish(&mut self)
        requires
            old(self).wf(),
        ensures
            final(self).wf(),
            final(self)@.breakpoints == old(self)@.breakpoints,
            final(self)@.callbacks == old(self)@.callbacks,
            final(self)@.adopted.len() == 0,
            final(self)@.threads == old(self)@.threads.filter(|thread: Thread| is_live(thread))
                + old(self)@.adopted,
    {
        let ghost all = self.threads@;
        let ghost keep = |thread: Thread| is_live(thread);
        let ghost mut seen: int = 0;
        let mut i: usize = 0;
        while i < self.threads.len()
            invariant
                self.breakpoints == old(self).breakpoints,
                self.callbacks == old(self).callbacks,
                self.adopted == old(self).adopted,
                all == old(self).threads@,
                keep == |thread: Thread| is_live(thread),
                0 <= seen <= all.len(),
                i <= self.threads@.len(),
                self.threads@.len() - i == all.len() - seen,
                self.threads@.subrange(0, i as int) == all.subrange(0, seen).filter(keep),
                self.threads@.subrange(i as int, self.threads@.len() as int) == all.subrange(
                    seen,
                    all.len() as int,
                ),
            decreases self.threads@.len() - i,
        {
            let ghost before = self.threads@;
            assert(before[i as int] == all[seen]) by {
                assert(before.subrange(i as int, before.len() as int)[0] == all.subrange(
                    seen,
                    all.len() as int,
                )[0]);
            }
            assert(all.subrange(0, seen + 1).drop_last() == all.subrange(0, seen));
            reveal_with_fuel(Seq::filter, 2);
            let gone = self.threads[i].state == ThreadState::Exited || self.threads[i].state
                == ThreadState::Detached;
            if gone {
                self.threads.remove(i);
                assert(self.threads@.subrange(0, i as int) == before.subrange(0, i as int));
                assert(self.threads@.subrange(i as int, self.threads@.len() as int)
                    == before.subrange(i as int, before.len() as int).subrange(
                    1,
                    before.len() - i,
                ));
                assert(all.subrange(seen, all.len() as int).subrange(1, all.len() - seen)
                    == all.subrange(seen + 1, all.len() as int));
            } else {
                assert(self.threads@.subrange(0, i + 1) == before.subrange(0, i as int).push(
                    before[i as int],
                ));
                assert(self.threads@.subrange(i + 1, self.threads@.len() as int)
                    == before.subrange(i as int, before.len() as int).subrange(
                    1,
                    before.len() - i,
                ));
                assert(all.subrange(seen, all.len() as int).subrange(1, all.len() - seen)
                    == all.subrange(seen + 1, all.len() as int));
                i += 1;
            }
            proof {
                seen = seen + 1;
            }
        }
        assert(all.subrange(0, seen) == all);
        assert(self.threads@.subrange(0, i as int) == self.threads@);
        self.threads.append(&mut self.adopted);
    }

    /// Lets go of the target: in every thread that is stopped under the
    /// tracer and whose DR7 could be read, the live breakpoints are
    /// switched off, and every thread is detached. `dr7[i]` is what DR7 of
    /// thread `i` holds, or nothing if it could not be read.
    ///
    /// This is the way out, and it is best effort: the requests are to be
    /// made one after the other, whether or not the ones before succeeded.
    pub fn detach(&mut self, dr7: &Vec<Option<u64>>) -> (requests: Vec<Request>)
        requires
            old(self).wf(),
        ensures
            final(self).wf(),
            final(self)@.breakpoints == old(self)@.breakpoints,
            final(self)@.callbacks == old(self)@.callbacks,
            final(self)@.adopted == old(self)@.adopted,
            requests@ == detach_requests(
                old(self)@.threads,
                old(self)@.breakpoints,
                dr7@,
                old(self)@.threads.len(),
            ),
            final(self)@.threads.len() == old(self)@.threads.len(),
            forall|i: int|
                0 <= i < old(self)@.threads.len() ==> #[trigger] final(self)@.threads[i] == old(self)@.threads[i].with_state(ThreadState::Detached),
    {
        let mut requests: Vec<Request> = Vec::new();
        let mut i: usize = 0;
        while i < self.threads.len()
            invariant
                i <= self.threads@.len(),
                self.breakpoints@ == old(self).breakpoints@,
                self.callbacks@ == old(self).callbacks@,
                self.adopted@ == old(self).adopted@,
                self.threads@.len() == old(self).threads@.len(),
                requests@ == detach_requests(
                    old(self).threads@,
                    self.breakpoints@,
                    dr7@,
                    i as nat,
                ),
                forall|j: int|
                    0 <= j < i ==> #[trigger] self.threads@[j] == old(self).threads@[j].with_state(
                        ThreadState::Detached,
                    ),
                forall|j: int|
                    i <= j < self.threads@.len() ==> #[trigger] self.threads@[j] == old(self).threads@[j],
            decreases self.threads@.len() - i,
        {
            let ghost done = requests@;
            if i < dr7.len() && self.threads[i].is_traced() {
                match dr7[i] {
                    Some(word) => {
                        let mut control = word;
                        let mut j: usize = 0;
                        while j < self.breakpoints.len()
                            invariant
                                i < self.threads@.len(),
                                self.threads@[i as int].state == ThreadState::Tracing,
                                j <= self.breakpoints@.len(),
                                control == dr7_removed(self.breakpoints@, j as nat, word),
                                requests@ == done + remove_requests(
                                    self.threads@[i as int].pid,
                                    self.breakpoints@,
                                    j as nat,
                                    word,
                                ),
                            decreases self.breakpoints@.len() - j,
                        {
                            match self.threads[i].clear_breakpoint(&self.breakpoints[j], control) {
                                Ok(write) => {
                                    requests.push(write);
                                },
                                Err(_) => {},
                            }
                            control = self.breakpoints[j].disable(control);
                            assert(requests@ == done + remove_requests(
                                self.threads@[i as int].pid,
                                self.breakpoints@,
                                (j + 1) as nat,
                                word,
                            ));
                            j += 1;
                        }
                    },
                    None => {},
                }
            }
            let detach = self.threads[i].detach();
            requests.push(detach);
            i += 1;
        }
        requests
    }
}

} // verus!
