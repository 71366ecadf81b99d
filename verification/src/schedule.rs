//! The cost schedule: the single source of truth consulted on every
//! contract call, and the rule that gates its replacement.

use crate::host_weights::HostFnWeights;
use crate::instr_weights::InstructionWeights;
use crate::limits::Limits;
use vstd::prelude::*;

verus! {

/// Definition of the cost schedule and other parameterizations for the
/// wasm vm.
#[derive(Clone, Copy, PartialEq, Eq, Structural, Debug)]
pub struct Schedule {
    /// Version of the schedule.
    ///
    /// Must be incremented whenever the `instruction_weights` are changed,
    /// because changes to instruction weights require a re-instrumentation
    /// of all contracts, which is triggered by a version comparison on
    /// call. Changes to other parts of the schedule should not increment
    /// the version, in order to avoid unnecessary re-instrumentations.
    pub version: u32,

    /// Whether contracts are allowed to print diagnostic messages to the
    /// console. MUST only be enabled for development chains, never for
    /// production chains.
    pub enable_println: bool,

    /// Describes the upper limits on various metrics.
    pub limits: Limits,

    /// The weights for individual wasm instructions.
    pub instruction_weights: InstructionWeights,

    /// The weights for each imported function a contract is allowed to
    /// call.
    pub host_fn_weights: HostFnWeights,
}

/// Why a replacement schedule was refused.
#[derive(Clone, Copy, PartialEq, Eq, Structural, Debug)]
pub enum ScheduleError {
    /// The replacement's version is strictly less than the stored one.
    InvalidScheduleVersion,
}

impl Schedule {
    /// Allow contracts to print messages to the console.
    ///
    /// This should only ever be activated on development chains.
    ///
    /// Is set to `false` by default.
    pub fn enable_println(self, enable: bool) -> (r: Self)
        ensures
            r == (Schedule { enable_println: enable, ..self }),
    {
        Schedule { enable_println: enable, ..self }
    }

    /// Decide whether `candidate` may replace this stored schedule.
    ///
    /// A replacement is accepted exactly when its version is greater than
    /// or equal to the stored version. Equal versions are explicitly
    /// allowed: they are used when only parts other than the instruction
    /// weights change. A strictly smaller version is reported as
    /// [`ScheduleError::InvalidScheduleVersion`], never silently dropped.
    pub fn validate_update(&self, candidate: &Schedule) -> (r: Result<(), ScheduleError>)
        ensures
            r is Ok <==> candidate.version >= self.version,
            r is Err ==> r == Result::<(), ScheduleError>::Err(
                ScheduleError::InvalidScheduleVersion,
            ),
    {
        if candidate.version >= self.version {
            Ok(())
        } else {
            Err(ScheduleError::InvalidScheduleVersion)
        }
    }
}

impl Default for Schedule {
    /// The initial schedule: version 0, diagnostics off, default limits,
    /// and all weights zero until a benchmark run supplies measured
    /// values.
    fn default() -> (r: Self)
        ensures
            r.version == 0,
            r.enable_println == false,
            r.limits == Limits::spec_default(),
            r.instruction_weights == InstructionWeights::spec_zeroed(),
            r.host_fn_weights == HostFnWeights::spec_zeroed(),
    {
        Schedule {
            version: 0,
            enable_println: false,
            limits: Limits::default(),
            instruction_weights: InstructionWeights::default(),
            host_fn_weights: HostFnWeights::default(),
        }
    }
}

} // verus!
