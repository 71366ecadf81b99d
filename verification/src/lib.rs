//! Deterministic gas-cost schedule for a WebAssembly smart-contract
//! execution environment.
//!
//! The schedule assigns a fixed, overflow-safe cost ("weight") to every
//! primitive operation a contract may perform: individual bytecode
//! instructions and calls into host-provided capabilities. It also carries
//! the static limits a module must respect before it is accepted, the
//! normalization procedure that turns raw batched benchmark measurements
//! into per-operation constants, a persisted byte encoding for the whole
//! schedule, and the version rule that gates replacement of a stored
//! schedule.

pub mod derivation;
pub mod dispatch;
pub mod encoding;
pub mod host_weights;
pub mod instr_weights;
pub mod instruction;
pub mod limits;
pub mod measurements;
pub mod rules;
pub mod schedule;
pub mod weight_info;

use vstd::prelude::*;

verus! {

/// Cost unit consumed by one operation: computation and proof size
/// combined into a single unsigned 64-bit number.
pub type Weight = u64;

} // verus!
