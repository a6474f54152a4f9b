//! Running shell commands with a spinner, a status line, configurable
//! success criteria, timeouts and log files: the decisions and the text.
//!
//! The library judges finished runs (status and propagated exit code),
//! decides what to do while a command runs (kill on timeout, collect when
//! it exits, redraw the spinner), and renders status lines, indented output
//! bodies, group summaries and log entries. Starting processes, reading
//! pipes, drawing on the terminal and appending to files are left to the
//! caller, which hands the observed results to these functions.

pub mod cli;
pub mod clock;
pub mod command;
pub mod laws;
pub mod parallel;
pub mod render;
pub mod status;
pub mod text;
pub mod tui;

pub use command::{execute, Conclusion, Ran, ShellCommand};
pub use parallel::{parallel, ChildState, ParallelGroup};
pub use status::{CommandOutput, RunReport, RunStatus};
