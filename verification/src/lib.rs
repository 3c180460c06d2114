//! A process builder that spawns a child attached to a pseudo-terminal.
//!
//! The builder accumulates configuration for a child process, then spawns
//! it with the pty's terminal side as the default for every standard
//! stream the caller did not configure explicitly, and with a pre-exec
//! hook that makes the child a session leader with that terminal as its
//! controlling terminal, run before any user-supplied pre-exec hook.

pub mod command;
pub mod delegate;
pub mod hook;

pub use command::{Command, OsLayer, Pty, SpawnError};
pub use hook::{after_session_leader, AfterLeader, Composition, NoopHook, PreExecHook, Step};
