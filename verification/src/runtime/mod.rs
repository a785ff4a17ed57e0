pub mod bp;
pub mod flow;
pub mod http;
pub mod io;
pub mod mem;
pub mod regs;
pub mod thread;

pub use regs::RhaiRegisters;
pub use thread::RhaiThread;
