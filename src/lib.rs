//! Run orchestration for sandboxed build-and-run attempts on source repositories:
//! a registry of runs, the state machine that drives each run, its append-only
//! log and the tailers that republish it, and the analysis trigger.
use vstd::prelude::*;

pub mod analysis;
pub mod clock;
pub mod job;
pub mod log;
pub mod manifest;
pub mod registry;
pub mod text;

verus! {

} // verus!
