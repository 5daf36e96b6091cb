//! Driver, fixture responder and load harness for the external-processing
//! streaming protocol: a client-side engine that sends the phases of an HTTP
//! transaction in strict order and applies mode overrides from each reply, a
//! server-side responder that answers every phase with a continue verdict, and
//! a harness that runs many such exchanges with a warmup/measurement barrier.

pub mod client;
pub mod data;
pub mod harness;
pub mod message;
pub mod metrics;
pub mod mode;
pub mod server;

use vstd::prelude::*;

verus! {

/// The gRPC status code for an invalid argument, as carried in an
/// immediate-terminate verdict.
pub const INVALID_ARGUMENT_CODE: u32 = 3;

} // verus!
