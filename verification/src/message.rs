//! What the bridged process reports to the front-end.

use vstd::prelude::*;

verus! {

/// One event from the bridged process. A worker produces it once and the
/// coordinator consumes it once.
#[derive(Debug, Clone)]
pub enum PythonMessage {
    /// One line from the standard output stream: narrated with the typing
    /// animation.
    Output(String),
    /// One line from the standard error stream: shown at once.
    Error(String),
    /// The process ended with this exit code.
    ProcessExit(i32),
}

/// What a look at the bridged process found.
#[derive(Debug, Clone, Copy)]
pub enum Liveness {
    /// The process still runs.
    Running,
    /// The process ended with this exit code.
    Exited(i32),
}

} // verus!
