//! Coordination core of a three-stage data pipeline: continuous ingestion,
//! continuous analysis and periodic bulk export, kept apart by a phase lock.
//!
//! Every stage is a state machine: it is told how its last action ended and
//! answers with the next action to perform. The runtime that performs the
//! actions (queue reads, storage writes, sleeps) lives outside this crate.
use vstd::prelude::*;

pub mod gate;
pub mod ingest;
pub mod analysis;
pub mod export;
pub mod pipeline;
pub mod controller;

verus! {

/// How the last action that a stage handed out ended.
#[derive(Clone, Copy, Debug, PartialEq, Eq, Structural)]
pub enum Outcome {
    Success,
    Failure,
}

} // verus!
