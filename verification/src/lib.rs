//! Per-block production scheduler of a proof-of-stake validator.
//!
//! For a single target block height the scheduler decides, deterministically
//! from chain state, whether the local validator is the appointed producer;
//! if so, it schedules production at a network-wide expected timestamp under
//! a consistency guard against concurrent chain mutation; if not, it waits
//! for the appointed producer and on timeout hands off into a validator-quorum
//! fallback ("skip block") round.
//!
//! The scheduler is a pure state machine: a driver acquires chain views,
//! sleeps, runs the quorum round and pushes blocks, and reports each outcome
//! back as an event. Every decision between those events is made here.

pub mod budget;
pub mod cycle;
pub mod model;
pub mod schedule;
pub mod source;
