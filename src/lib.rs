//! Polling file watcher and command supervisor.
//!
//! The library holds the logic: file records (`file`), snapshots and the
//! scan rules (`snapshot`), the differ (`diff`), the pollers (`watcher`,
//! `observer`), configuration values and argument checks (`config`, `cli`),
//! the process-handle state machine (`command`), the retrying launcher
//! (`launcher`), the supervisor's decisions (`supervisor`) and the operator
//! console's commands (`console`). Walking directories, running processes
//! and reading files happen in the program around it, which hands the
//! outcomes to these functions.
use vstd::prelude::*;

pub mod cli;
pub mod command;
pub mod config;
pub mod console;
pub mod diff;
pub mod file;
pub mod launcher;
pub mod observer;
pub mod snapshot;
pub mod supervisor;
pub mod watcher;

verus! {

} // verus!
