//! Decision logic for turning a foreground process into a detached service:
//! choosing the execution mode, the double-fork detachment sequence, the
//! bounded supervision of a task or an external command, the one-time
//! configuration of logging sinks, and following a growing log file.
//!
//! Every function here decides; the caller performs the system calls and the
//! asynchronous waits and hands the results back as plain values.

pub mod command;
pub mod config;
pub mod detachment;
pub mod heartbeat;
pub mod logging;
pub mod supervisor;
pub mod tail;

pub use config::Args;
