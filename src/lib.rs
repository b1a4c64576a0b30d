//! A message relay: a gateway that publishes each accepted message in a
//! broker transaction and then hands it to a direct-write store, a store that
//! consumes the broker's committed records, and the composed read of both.
//!
//! Each part that waits on the network is a state machine here: it takes the
//! result of the last operation and names the next one, and its caller
//! performs it.
use vstd::prelude::*;

pub mod error;
pub mod gateway;
pub mod ident;
pub mod ingest;
pub mod laws;
pub mod log_store;
pub mod message_store;
pub mod write_path;

verus! {

} // verus!
