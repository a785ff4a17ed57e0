use vstd::prelude::*;

use crate::thread::Thread;

verus! {

/// The identity of a traced thread as a script sees it: its PID as a script
/// integer, and its name.
#[derive(Debug, Clone, PartialEq, Eq)]
pub struct RhaiThread {
    pub pid: i64,
    pub name: String,
}

impl RhaiThread {
    pub fn new(pid: i64, name: String) -> (thread: RhaiThread)
        ensures
            thread.pid == pid,
            thread.name == name,
    {
        Self { pid, name }
    }

    /// The script's view of `thread`.
    pub open spec fn of(thread: Thread) -> RhaiThread {
        RhaiThread { pid: thread.pid as i64, name: thread.name }
    }

    /// The task id that the script's PID stands for, if it is one: task ids
    /// are unsigned and 32 bits wide.
    pub fn task_id(&self) -> (id: Option<u32>)
        ensures
            0 <= self.pid <= u32::MAX ==> id == Some(self.pid as u32),
            !(0 <= self.pid <= u32::MAX) ==> id is None,
    {
        if 0 <= self.pid && self.pid <= u32::MAX as i64 {
            Some(self.pid as u32)
        } else {
            None
        }
    }

    /// Another value with the same PID and name.
    pub fn duplicate(&self) -> (copy: RhaiThread)
        ensures
            copy == *self,
    {
        RhaiThread { pid: self.pid, name: self.name.clone() }
    }
}

impl From<&Thread> for RhaiThread {
    fn from(thread: &Thread) -> (seen: RhaiThread) {
        Self::new(thread.pid as i64, thread.name.clone())
    }
}

impl vstd::std_specs::convert::FromSpecImpl<&Thread> for RhaiThread {
    open spec fn obeys_from_spec() -> bool {
        true
    }

    open spec fn from_spec(thread: &Thread) -> RhaiThread {
        RhaiThread::of(*thread)
    }
}

} // verus!
