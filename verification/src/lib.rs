//! Serving core of a distributed analytical database: the request dispatch
//! and execution-isolation layer.
//!
//! The crate models the wire protocol of a batched request/response round
//! trip, the client-side correlator that packs logical operations into one
//! envelope and demultiplexes results positionally, the server-side region
//! entry that validates envelopes and hands work to an isolated execution
//! context, and the capability-based handler registry that funnels every
//! protocol through one plan/execute contract.

pub mod cli;
pub mod codec;
pub mod database;
pub mod error;
pub mod isolator;
pub mod lifecycle;
pub mod options;
pub mod proto;
pub mod query_handler;
pub mod region;
pub mod subcmd;

use vstd::prelude::*;

verus! {

/// Version number that every request header carries on the wire.
pub const PROTOCOL_VERSION: u32 = 1;

} // verus!
