//! Shutdown flags, the error taxonomy, and join-time error propagation.
//!
//! The owner pre-allocates one advisory shutdown flag per worker and shares
//! it with that worker alone.  Setting a flag never interrupts work in
//! flight: a worker observes it only at its next poll point.  To stop the
//! transport cleanly the owner sets both flags, drops the outbound send
//! endpoint so the writer worker's receive loop ends, and then joins both
//! workers; the join surfaces the first fatal error either worker hit.
//!
//! An orderly end of stream is not an error and never appears here: a worker
//! that stops for that reason reports success.

use vstd::prelude::*;

use crate::reader::ReaderStatus;

verus! {

/// A fatal worker error, surfaced to the owner when it joins the workers.
#[derive(Debug, Clone, Copy, PartialEq, Eq, Structural)]
pub enum TransportError {
    /// The reader worker hit malformed or truncated input.
    Decode,
    /// The writer worker failed to serialize or transmit a message.
    Encode,
}

/// An advisory boolean the owner sets to ask one worker to terminate.
/// It starts clear and is polled by exactly one worker; once set it is
/// never cleared.
pub struct ShutdownFlag {
    requested: bool,
}

impl ShutdownFlag {
    /// Whether termination has been requested.
    pub closed spec fn is_set(&self) -> bool {
        self.requested
    }

    /// A fresh flag: termination not requested.
    pub fn new() -> (f: ShutdownFlag)
        ensures
            !f.is_set(),
    {
        ShutdownFlag { requested: false }
    }

    /// The owner requests cooperative termination.
    pub fn request(&mut self)
        ensures
            final(self).is_set(),
    {
        self.requested = true;
    }

    /// The poll a worker makes at one of its poll points.
    pub fn poll(&self) -> (b: bool)
        ensures
            b == self.is_set(),
    {
        self.requested
    }
}

/// What joining both workers reports: the reader worker's error if it
/// failed, else the writer worker's, else success.
pub open spec fn first_error(
    reader: Result<(), TransportError>,
    writer: Result<(), TransportError>,
) -> Result<(), TransportError> {
    if reader is Err {
        reader
    } else {
        writer
    }
}

/// Combines both workers' exit reports into the transport's join result,
/// propagating the first fatal error encountered (the reader worker is
/// joined first).
pub fn join_outcome(
    reader: Result<(), TransportError>,
    writer: Result<(), TransportError>,
) -> (out: Result<(), TransportError>)
    ensures
        out == first_error(reader, writer),
{
    match reader {
        Err(e) => Err(e),
        Ok(()) => writer,
    }
}

/// The exit report of a reader worker that has terminated: a decode error
/// if it aborted, success otherwise.  A still-running worker has no report,
/// so `Running` is excluded.
pub fn reader_outcome(status: ReaderStatus) -> (out: Result<(), TransportError>)
    requires
        !(status is Running),
    ensures
        status is Failed ==> out == Result::<(), TransportError>::Err(TransportError::Decode),
        status is Finished ==> out is Ok,
{
    match status {
        ReaderStatus::Failed => Err(TransportError::Decode),
        _ => Ok(()),
    }
}

} // verus!
