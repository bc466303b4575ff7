//! Lifecycle of an isolated Python environment: where its executables live,
//! when it counts as usable, how it is created and how scripts run inside it.
//!
//! The library never touches the filesystem or starts a process itself. Each
//! operation is a small state machine: the host performs the requested action
//! and reports what happened, and the library decides what comes next.

pub mod config;
pub mod error;
pub mod guarantees;
pub mod layout;
pub mod process;
pub mod python_env;
pub mod text;
