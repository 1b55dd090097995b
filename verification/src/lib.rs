//! Tracked filesystem mounts for a privileged installation workflow.
//!
//! The library decides everything about a mount's lifecycle — which external
//! `mount` invocation to build, which unmount system call is owed, how state
//! changes on each outcome — while the caller performs the actual process
//! spawns and system calls and hands the results back.

pub mod mount;

pub use mount::{
    Mount, MountCommand, MountError, MountOption, MountSyscall, Mounts, SyscallOutcome,
    UnmountCall, BIND, SYNC,
};
