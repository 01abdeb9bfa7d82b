//! The verified core of a small Linux container runtime: the text it writes
//! to and reads from cgroup files, the system calls that isolate a container,
//! and the decisions that sequence them.

pub mod decimal;
pub mod text;
pub mod syscall;
pub mod plan;
pub mod filesystem;
pub mod namespace;
pub mod cgroups;
pub mod overlayfs;
pub mod network;
pub mod runtime;
