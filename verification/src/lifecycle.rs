//! Classification of the lifecycle of the launched jailer process.
//!
//! The process is observed, not owned: the operating system governs its
//! lifetime, and the embedding program reports what the operating system
//! showed for the PID. This module turns those observations into the
//! defined states and the typed failures, and nothing else.

use vstd::prelude::*;

use crate::error::Error;

verus! {

/// The state of the launched process, as far as it has been observed.
#[derive(Debug, Clone, Copy, PartialEq, Eq, Structural)]
pub enum ProcessState {
    /// PID obtained, no check made yet.
    Spawned,
    /// The process was confirmed alive on the last query.
    Running,
    /// Terminal: an exit status was observed within the brief window
    /// immediately after the spawn, before the process was ever treated as
    /// running. This almost always indicates a configuration or
    /// environment failure rather than normal shutdown.
    ExitedImmediately,
    /// Terminal: an exit status was observed on a later query; the process
    /// self-exited or was killed.
    Terminated,
    /// Terminal: a later query found that the operating system no longer
    /// recognises the PID; it was reaped already, or never valid.
    NotRunning,
}

/// What the operating system reported for the PID on one query.
#[derive(Debug, Clone, Copy, PartialEq, Eq, Structural)]
pub enum ProcessProbe {
    /// The PID names a live process.
    Alive,
    /// An exit status was observed for the process, with its raw value.
    Exited(i32),
    /// The operating system does not recognise the PID.
    Absent,
}

/// The mathematical content of a [`ProcessHandle`]: the PID it references
/// and the state last concluded for it.
pub ghost struct ProcessHandleView {
    pub pid: i32,
    pub state: ProcessState,
}

/// A handle to the launched process: the PID together with the state the
/// classifier has concluded so far.
///
/// The handle references the process, it does not contain it. Dropping the
/// handle while the process runs leaves an unsupervised child behind; the
/// caller is expected to wait for the process or terminate it first.
#[derive(Debug, Clone, Copy)]
pub struct ProcessHandle {
    pid: i32,
    state: ProcessState,
}

impl View for ProcessHandle {
    type V = ProcessHandleView;

    closed spec fn view(&self) -> ProcessHandleView {
        ProcessHandleView { pid: self.pid, state: self.state }
    }
}

impl ProcessHandle {
    /// Take up the PID of a process that was just created. No exit status
    /// has been observed yet, so the state is `Spawned`.
    pub fn new(pid: i32) -> (h: Self)
        ensures
            h@ == (ProcessHandleView { pid, state: ProcessState::Spawned }),
    {
        ProcessHandle { pid, state: ProcessState::Spawned }
    }

    /// The PID of the launched process.
    pub fn pid(&self) -> (r: i32)
        ensures
            r == self@.pid,
    {
        self.pid
    }

    /// The state last concluded for the process.
    pub fn state(&self) -> (r: ProcessState)
        ensures
            r == self@.state,
    {
        self.state
    }

    /// Classify the bounded check made immediately after the spawn.
    ///
    /// `observed_exit` is what a non-blocking wait on the child showed
    /// within the bounded post-spawn window: `None` when the process was
    /// still alive, `Some` with the raw exit status when it had already
    /// exited. An immediate exit is an error, carrying the status, and is
    /// terminal; a live process has reached steady state.
    pub fn check_after_spawn(&mut self, observed_exit: Option<i32>) -> (r: Result<(), Error>)
        requires
            old(self)@.state == ProcessState::Spawned,
        ensures
            final(self)@.pid == old(self)@.pid,
            match observed_exit {
                None => {
                    &&& r is Ok
                    &&& final(self)@.state == ProcessState::Running
                },
                Some(status) => {
                    &&& r == Err::<(), Error>(Error::ProcessExitedImmediately {
                        exit_status: status,
                    })
                    &&& final(self)@.state == ProcessState::ExitedImmediately
                },
            },
    {
        match observed_exit {
            None => {
                self.state = ProcessState::Running;
                Ok(())
            },
            Some(status) => {
                self.state = ProcessState::ExitedImmediately;
                Err(Error::ProcessExitedImmediately { exit_status: status })
            },
        }
    }

    /// Classify a later explicit status query on a running process.
    ///
    /// An observed exit status means the process terminated; an absent PID
    /// means the operating system no longer knows it; a live process stays
    /// running. The concluded state is returned.
    pub fn query(&mut self, probe: ProcessProbe) -> (st: ProcessState)
        requires
            old(self)@.state == ProcessState::Running,
        ensures
            final(self)@.pid == old(self)@.pid,
            final(self)@.state == st,
            match probe {
                ProcessProbe::Alive => st == ProcessState::Running,
                ProcessProbe::Exited(_) => st == ProcessState::Terminated,
                ProcessProbe::Absent => st == ProcessState::NotRunning,
            },
    {
        match probe {
            ProcessProbe::Alive => {},
            ProcessProbe::Exited(_) => {
                self.state = ProcessState::Terminated;
            },
            ProcessProbe::Absent => {
                self.state = ProcessState::NotRunning;
            },
        }
        self.state
    }

    /// Decide whether a termination request may be issued at all.
    ///
    /// A termination signal must only be sent to a process the operating
    /// system still recognises as this child. When the probe shows the
    /// process gone — exited or reaped — the request fails with
    /// `ProcessNotRunning`, carrying the PID, and the handle moves to the
    /// corresponding terminal state; no signal is to be sent then.
    pub fn terminate_precheck(&mut self, probe: ProcessProbe) -> (r: Result<(), Error>)
        requires
            old(self)@.state == ProcessState::Running,
        ensures
            final(self)@.pid == old(self)@.pid,
            match probe {
                ProcessProbe::Alive => {
                    &&& r is Ok
                    &&& final(self)@.state == ProcessState::Running
                },
                ProcessProbe::Exited(_) => {
                    &&& r == Err::<(), Error>(Error::ProcessNotRunning(old(self)@.pid))
                    &&& final(self)@.state == ProcessState::Terminated
                },
                ProcessProbe::Absent => {
                    &&& r == Err::<(), Error>(Error::ProcessNotRunning(old(self)@.pid))
                    &&& final(self)@.state == ProcessState::NotRunning
                },
            },
    {
        match probe {
            ProcessProbe::Alive => Ok(()),
            ProcessProbe::Exited(_) => {
                self.state = ProcessState::Terminated;
                Err(Error::ProcessNotRunning(self.pid))
            },
            ProcessProbe::Absent => {
                self.state = ProcessState::NotRunning;
                Err(Error::ProcessNotRunning(self.pid))
            },
        }
    }

    /// Classify the confirmatory re-check made after the termination
    /// signal was sent.
    ///
    /// Termination is signal-based and not instantaneous, so the signal's
    /// own success is not trusted: only this re-check decides. A process
    /// still alive means the request failed with `ProcessNotKilled`,
    /// carrying the PID; a process gone means the request succeeded.
    pub fn confirm_termination(&mut self, probe: ProcessProbe) -> (r: Result<(), Error>)
        requires
            old(self)@.state == ProcessState::Running,
        ensures
            final(self)@.pid == old(self)@.pid,
            match probe {
                ProcessProbe::Alive => {
                    &&& r == Err::<(), Error>(Error::ProcessNotKilled(old(self)@.pid))
                    &&& final(self)@.state == ProcessState::Running
                },
                ProcessProbe::Exited(_) => {
                    &&& r is Ok
                    &&& final(self)@.state == ProcessState::Terminated
                },
                ProcessProbe::Absent => {
                    &&& r is Ok
                    &&& final(self)@.state == ProcessState::NotRunning
                },
            },
    {
        match probe {
            ProcessProbe::Alive => Err(Error::ProcessNotKilled(self.pid)),
            ProcessProbe::Exited(_) => {
                self.state = ProcessState::Terminated;
                Ok(())
            },
            ProcessProbe::Absent => {
                self.state = ProcessState::NotRunning;
                Ok(())
            },
        }
    }
}

/// Whether a state is terminal: once concluded, no further transition is
/// defined from it, and every classifying operation requires a
/// non-terminal state.
pub open spec fn is_terminal(st: ProcessState) -> bool {
    match st {
        ProcessState::Spawned => false,
        ProcessState::Running => false,
        ProcessState::ExitedImmediately => true,
        ProcessState::Terminated => true,
        ProcessState::NotRunning => true,
    }
}

/// A query concludes a terminal state exactly when the process is gone: a
/// live process stays in the non-terminal running state, an observed exit
/// or an absent PID ends in a terminal one.
pub proof fn lemma_query_concludes_terminal_iff_gone(probe: ProcessProbe)
    ensures
        match probe {
            ProcessProbe::Alive => !is_terminal(ProcessState::Running),
            ProcessProbe::Exited(_) => is_terminal(ProcessState::Terminated),
            ProcessProbe::Absent => is_terminal(ProcessState::NotRunning),
        },
{
}

} // verus!
