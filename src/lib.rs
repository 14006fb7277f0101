//! Client-side logic for a threshold-approval custody account: derived
//! account addresses, compilation of instruction batches into the stored
//! message format, and the requests of the proposal lifecycle (create,
//! vote, execute) with the decisions around submitting them.

pub mod address;
pub mod message;
pub mod program;
pub mod cli;
