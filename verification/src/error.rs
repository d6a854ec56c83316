use vstd::prelude::*;

verus! {

/// Error type for this crate.
///
/// Every failure of validation, launch classification or termination is
/// reported through one of these variants; nothing is recovered locally.
#[derive(Debug, Clone, PartialEq, Eq)]
pub enum Error {
    /// An underlying input/output failure of the host, carried verbatim as
    /// its rendered message.
    Io(String),
    /// Invalid jailer executable path specified.
    InvalidJailerExecPath,
    /// Invalid VM-monitor executable path specified.
    InvalidExecPath,
    /// Invalid socket path specified.
    InvalidSocketPath,
    /// Invalid drive path specified.
    InvalidDrivePath,
    /// Invalid chroot base path specified.
    InvalidChrootBasePath,
    /// The virtual CPU count is neither 1 nor an even number in range.
    InvalidVcpuCount(usize),
    /// The memory size is not a positive number of mebibytes.
    InvalidMemorySize(i64),
    /// Process not running for the given PID.
    ProcessNotRunning(i32),
    /// Process not killed for the given PID.
    ProcessNotKilled(i32),
    /// Process exited immediately after start with the given status.
    ProcessExitedImmediately { exit_status: i32 },
}

} // verus!
