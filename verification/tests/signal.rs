use tracer_core::error::Error;
use tracer_core::util::signal::{wait, wait_nonblock, WaitStatus};

#[test]
fn wait_reports_a_failed_call() {
    assert_eq!(wait(-1, 0), Err(Error::KernelCallFailed));
    assert_eq!(wait_nonblock(-1, 0x57f), Err(Error::KernelCallFailed));
}

#[test]
fn wait_decodes_a_stop_with_the_whole_status_word() {
    assert_eq!(wait(1234, 0x057f), Ok(WaitStatus::Stopped(0x057f)));
    assert_eq!(wait(1234, 0x3057f), Ok(WaitStatus::Stopped(0x3057f)));
}

#[test]
fn wait_decodes_an_exit_with_its_code() {
    assert_eq!(wait(1234, 0), Ok(WaitStatus::Exited(0)));
    assert_eq!(wait(1234, 3 << 8), Ok(WaitStatus::Exited(3)));
}

#[test]
fn wait_decodes_a_kill_with_its_signal() {
    assert_eq!(wait(1234, 2), Ok(WaitStatus::Signaled(2)));
    assert_eq!(wait(1234, 9 | 0x80), Ok(WaitStatus::Signaled(9)));
}

#[test]
fn wait_refuses_a_status_that_is_none_of_the_three() {
    assert_eq!(wait(1234, 0xff), Err(Error::KernelCallFailed));
}

#[test]
fn wait_nonblock_reports_no_status() {
    assert_eq!(wait_nonblock(0, 0), Ok(WaitStatus::Running));
    assert_eq!(wait_nonblock(0, 0x57f), Ok(WaitStatus::Running));
}

#[test]
fn wait_nonblock_decodes_like_wait() {
    assert_eq!(wait_nonblock(77, 0x0a7f), Ok(WaitStatus::Stopped(0x0a7f)));
    assert_eq!(wait_nonblock(77, 1 << 8), Ok(WaitStatus::Exited(1)));
    assert_eq!(wait_nonblock(77, 15), Ok(WaitStatus::Signaled(15)));
}
