//! A bidirectional message transport core.
//!
//! The transport moves tagged protocol messages between a remote peer on a
//! byte-stream connection and a local owner.  Inbound messages are classified
//! by kind into three FIFO queues that the owner polls; outbound messages are
//! handed to a writer worker one at a time.  Two advisory shutdown flags, one
//! per worker, coordinate cooperative termination.
//!
//! This crate holds the transport's decisions and state: message
//! classification, the classified queues, the per-event step each worker
//! takes, and the join-time error propagation.  The surrounding program owns
//! the connection, the worker threads, and the handoff channel, and drives
//! the step functions here with the events it observes.

pub mod msg;
pub mod queues;
pub mod reader;
pub mod transport;
pub mod writer;

use vstd::prelude::*;

verus! {

} // verus!
