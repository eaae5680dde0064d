//! The runtime surface the engine consumes: pacing between polls. Passed
//! in explicitly so the engine stays testable with a simulated clock.

use vstd::prelude::*;

verus! {

/// Severity of a diagnostic line, for the embedding runtime's logger.
#[derive(Clone, Copy, Debug, PartialEq, Eq, Structural)]
pub enum LogLevel {
    Error,
    Warn,
    Info,
    Debug,
    Trace,
}

/// What the engine asks of its host runtime. Implementors suspend the
/// calling task; a simulated runtime may simply count the calls.
pub trait RelayRuntime {
    /// Pause the calling task for the given number of milliseconds.
    fn sleep_ms(&mut self, milliseconds: u64);
}

} // verus!
