//! Core logic of a small autonomous fundraising agent: it watches a Lightning
//! wallet balance, decides when to ask for donations again, assembles the text
//! of a streamed chat completion, and keeps a single persisted balance record.
//!
//! Everything here is plain computation on plain values; the network, file and
//! relay plumbing around it lives outside the library.

pub mod agent;
pub mod auth;
pub mod balance_log;
pub mod completion;
pub mod framing;
pub mod heuristic;
pub mod quotes;
pub mod survival;

use vstd::prelude::*;

verus! {

} // verus!
