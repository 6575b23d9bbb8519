//! The error taxonomy of the supervision core. Every externally surfaced
//! failure carries plain descriptive text (as UTF-8 bytes), never a
//! structured code.

use vstd::prelude::*;

verus! {

/// A failure of one invoked operation. Nothing here is fatal to the process;
/// each value is scoped to the single operation that produced it.
#[derive(Debug, Clone, PartialEq, Eq)]
pub enum CoreError {
    /// A start was requested while the single-flight guard was already held.
    AlreadyRunning,
    /// No candidate location held the worker executable; `message` is the
    /// user-facing text naming the expected file.
    WorkerNotFound { message: Vec<u8> },
    /// The operating system refused to spawn the worker; `detail` is the OS
    /// error text.
    SpawnFailed { detail: Vec<u8> },
    /// The connectivity probe found no verdict line; `detail` is the captured
    /// diagnostic text.
    ConnectionFailed { detail: Vec<u8> },
}

} // verus!
