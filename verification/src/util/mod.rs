pub mod mem;
pub mod procfs;
pub mod ptrace;
pub mod signal;
pub mod text;
