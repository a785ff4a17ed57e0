//! The core of a scriptable tracer for multi-threaded Linux/x86-64
//! processes.
//!
//! The core decides and never acts: it keeps the records of the traced
//! threads and of the hardware breakpoints, takes in what the kernel
//! reported, and hands out the kernel requests and script calls that are to
//! be made, in order. Whoever drives it makes the calls.
//!
//! - `thread`: one traced task and its place in the tracing protocol.
//! - `hwbp`: hardware breakpoints and the layout of DR6 and DR7.
//! - `debugger`: the engine, which owns the threads, the breakpoints and the
//!   script's callbacks; `debugger::plans` says what its operations hand
//!   out, `debugger::laws` what holds of them.
//! - `supervisor`: the stages of the supervisor's loop.
//! - `runtime`: what the script's functions compute.
//! - `util`: wait statuses, kernel requests, memory transfers and the files
//!   of `/proc`.

pub mod debugger;
pub mod error;
pub mod hwbp;
pub mod registers;
pub mod runtime;
pub mod supervisor;
pub mod thread;
pub mod util;

pub use error::Error;
pub use supervisor::Event;
