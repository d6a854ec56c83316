//! Lifecycle classification of the launched process.

use firec::error::Error;
use firec::lifecycle::{ProcessHandle, ProcessProbe, ProcessState};

#[test]
fn new_handle_starts_spawned() {
    let h = ProcessHandle::new(4242);
    assert_eq!(h.pid(), 4242);
    assert_eq!(h.state(), ProcessState::Spawned);
}

#[test]
fn immediate_exit_with_status_one_is_reported() {
    let mut h = ProcessHandle::new(100);
    let r = h.check_after_spawn(Some(1));
    assert_eq!(r, Err(Error::ProcessExitedImmediately { exit_status: 1 }));
    assert_eq!(h.state(), ProcessState::ExitedImmediately);
}

#[test]
fn surviving_the_post_spawn_window_means_running() {
    let mut h = ProcessHandle::new(100);
    assert_eq!(h.check_after_spawn(None), Ok(()));
    assert_eq!(h.state(), ProcessState::Running);
}

#[test]
fn query_keeps_a_live_process_running() {
    let mut h = ProcessHandle::new(100);
    h.check_after_spawn(None).unwrap();
    assert_eq!(h.query(ProcessProbe::Alive), ProcessState::Running);
    assert_eq!(h.state(), ProcessState::Running);
}

#[test]
fn query_concludes_terminated_on_an_observed_exit() {
    let mut h = ProcessHandle::new(100);
    h.check_after_spawn(None).unwrap();
    assert_eq!(h.query(ProcessProbe::Exited(0)), ProcessState::Terminated);
    assert_eq!(h.state(), ProcessState::Terminated);
}

#[test]
fn query_concludes_not_running_on_an_absent_pid() {
    let mut h = ProcessHandle::new(100);
    h.check_after_spawn(None).unwrap();
    assert_eq!(h.query(ProcessProbe::Absent), ProcessState::NotRunning);
    assert_eq!(h.state(), ProcessState::NotRunning);
}

#[test]
fn terminating_a_reaped_pid_reports_process_not_running() {
    let mut h = ProcessHandle::new(7777);
    h.check_after_spawn(None).unwrap();
    let r = h.terminate_precheck(ProcessProbe::Absent);
    assert_eq!(r, Err(Error::ProcessNotRunning(7777)));
    assert_eq!(h.state(), ProcessState::NotRunning);
}

#[test]
fn terminating_an_exited_pid_reports_process_not_running() {
    let mut h = ProcessHandle::new(7778);
    h.check_after_spawn(None).unwrap();
    let r = h.terminate_precheck(ProcessProbe::Exited(0));
    assert_eq!(r, Err(Error::ProcessNotRunning(7778)));
    assert_eq!(h.state(), ProcessState::Terminated);
}

#[test]
fn terminate_precheck_passes_on_a_live_process() {
    let mut h = ProcessHandle::new(7779);
    h.check_after_spawn(None).unwrap();
    assert_eq!(h.terminate_precheck(ProcessProbe::Alive), Ok(()));
    assert_eq!(h.state(), ProcessState::Running);
}

#[test]
fn a_process_that_ignores_the_signal_reports_process_not_killed() {
    let mut h = ProcessHandle::new(8888);
    h.check_after_spawn(None).unwrap();
    h.terminate_precheck(ProcessProbe::Alive).unwrap();
    let r = h.confirm_termination(ProcessProbe::Alive);
    assert_eq!(r, Err(Error::ProcessNotKilled(8888)));
    assert_eq!(h.state(), ProcessState::Running);
}

#[test]
fn a_confirmed_kill_succeeds() {
    let mut h = ProcessHandle::new(8889);
    h.check_after_spawn(None).unwrap();
    h.terminate_precheck(ProcessProbe::Alive).unwrap();
    assert_eq!(h.confirm_termination(ProcessProbe::Exited(137)), Ok(()));
    assert_eq!(h.state(), ProcessState::Terminated);
}

#[test]
fn a_kill_confirmed_by_an_absent_pid_succeeds() {
    let mut h = ProcessHandle::new(8890);
    h.check_after_spawn(None).unwrap();
    h.terminate_precheck(ProcessProbe::Alive).unwrap();
    assert_eq!(h.confirm_termination(ProcessProbe::Absent), Ok(()));
    assert_eq!(h.state(), ProcessState::NotRunning);
}
