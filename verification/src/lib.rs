//! Configuration and lifecycle handling for a jailed microVM monitor process.
//!
//! The crate builds immutable configuration values for the VM monitor, the
//! jailer supervisor and the guest drives, validates them against observed
//! host conditions, derives the jailer command line and the standard-stream
//! plan, and classifies the observed lifecycle of the launched process.
//! Process creation itself, signalling and filesystem probing are left to the
//! embedding program; this crate decides, and proves its decisions.

pub mod config;
pub mod error;
pub mod launch;
pub mod lifecycle;
pub mod numeral;
