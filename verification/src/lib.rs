//! The rules of a rootless micro-sandbox for short-lived commands.
//!
//! A sandbox is a process that locks itself into namespaces of its own, mounts an overlay
//! in memory over the host's files, limits itself, puts a system call filter in force and then runs
//! a command, while its parent reads what the command writes, kills it when its time is
//! over and clears away what it left behind.
//!
//! Everything here decides; nothing here touches the system. Each part of the work that
//! alternates with system calls is a state machine: it says what to do next, and is told
//! what came of it.
//!
//! - [`request`]: what is asked of a sandbox, and what it answers
//! - [`supervisor`]: the watch over a running command
//! - [`output`]: what is kept of the command's output
//! - [`jail`]: the steps by which a started process locks itself in
//! - [`namespaces`]: the namespaces it is put in, and how it becomes root there
//! - [`seccomp`]: the system call filter, and what it decides
//! - [`session`]: the directories of a sandbox
//! - [`client`]: the exchange with a client of the daemon
//! - [`command_line`]: what the program's arguments ask for
//! - [`descriptor`], [`text`]: status flags of descriptors, and small texts
//! - [`platform`]: numbers of the Linux interface, taken from `libc` and `nix`

pub mod client;
pub mod command_line;
pub mod descriptor;
pub mod jail;
pub mod namespaces;
pub mod output;
pub mod platform;
pub mod request;
pub mod seccomp;
pub mod session;
pub mod supervisor;
pub mod text;

pub use crate::request::{ExecutionRequest, ExecutionResponse};
