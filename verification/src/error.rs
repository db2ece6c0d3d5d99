//! The error taxonomy shared by the pipe transport and the process
//! supervisor.

use vstd::prelude::*;

verus! {

/// Errors produced by the pipe transport and by the process supervisor.
#[derive(Copy, Clone, Debug, PartialEq, Eq, Structural)]
pub enum SubProcError {
    /// `start` was given an empty argv, or pipe setup or fork failed.
    CouldNotStartProcess,
    /// A read produced bytes that are not valid UTF-8.
    InvalidData,
    /// A write made no progress during a whole timeout window.
    IoTimeout,
    /// `cleanup` was attempted before termination was observed.
    SubProcStillRunning,
    /// A write was attempted after termination was observed.
    SubProcTerminated,
    /// Signal delivery failed.
    CouldNotKill,
    /// An OS-level pipe or descriptor failure, carrying the originating
    /// OS error code (`errno`).
    PipeError(i32),
}

} // verus!
