//! Supervision of script runs: at most one script runs at a time, its output
//! is streamed to an observer as notifications, and a run ends on its own, on
//! a deadline, or when the user cancels it.
//!
//! The library holds the decisions. Whoever embeds it performs the effects it
//! asks for (spawning, killing, reading pipes, driving a scripting engine,
//! emitting notifications) and reports back what happened.
//!
//! - [`supervisor`] admits one run at a time, passes on a stop, and closes
//!   each run with one terminal report.
//! - [`run_state`] is the record of a run under way and of a requested
//!   cancellation.
//! - [`process_runner`] decides for a run in an interpreter process: what
//!   each reader of the output forwards, when the process is killed, and how
//!   the run ended.
//! - [`embedded_runner`] decides for a run in a scripting engine inside
//!   this process: what the script printed and how the run ended.
//! - [`outcome`] has the output chunks and the results of runs.
//! - [`message`] has the notifications for the user interface.

pub mod embedded_runner;
pub mod message;
pub mod outcome;
pub mod process_runner;
pub mod run_state;
pub mod supervisor;
