//! Configuration values for the VM monitor, the guest drives and the jailer.

pub mod drive;
pub mod jailer;
pub mod machine;
