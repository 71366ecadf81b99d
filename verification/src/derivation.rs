//! Normalization of raw batched benchmark measurements into fixed
//! per-operation weight constants.
//!
//! A benchmark measures a whole batch of repetitions of one operation plus
//! a fixed per-invocation overhead. The derivation subtracts the overhead
//! (the same benchmark run with every repetition count set to zero),
//! divides by the batch size to obtain the marginal cost of one repetition,
//! and for instruction benchmarks further deducts the cost of the
//! supporting push-constant instructions that keep the synthetic module
//! valid. Every subtraction saturates at zero: a baseline that exceeds the
//! batched measurement is measurement noise, never an underflow or a
//! panic. This runs once, at schedule construction time, never during
//! per-call metering.

use crate::Weight;
use vstd::prelude::*;

verus! {

/// How many host-capability calls are executed in a single benchmark
/// batch. Batching makes it easier for the linear regression to determine
/// the contribution of one call.
pub const API_BENCHMARK_BATCH_SIZE: u32 = 100;

/// How many instructions are executed in a single benchmark batch. The
/// reasoning is the same as for `API_BENCHMARK_BATCH_SIZE`.
pub const INSTR_BENCHMARK_BATCH_SIZE: u32 = 1000;

/// Addition that clamps at the largest representable 32-bit weight.
pub open spec fn spec_sat_add_u32(a: u32, b: u32) -> u32 {
    if a + b > u32::MAX {
        u32::MAX
    } else {
        (a + b) as u32
    }
}

/// Multiplication that clamps at the largest representable 32-bit weight.
pub open spec fn spec_sat_mul_u32(a: u32, b: u32) -> u32 {
    if a * b > u32::MAX {
        u32::MAX
    } else {
        (a * b) as u32
    }
}

/// Subtraction that clamps at zero.
pub open spec fn spec_sat_sub_u32(a: u32, b: u32) -> u32 {
    if a >= b {
        (a - b) as u32
    } else {
        0u32
    }
}

/// Addition that clamps at the largest representable 32-bit weight.
pub fn sat_add_u32(a: u32, b: u32) -> (r: u32)
    ensures
        r == spec_sat_add_u32(a, b),
{
    let sum: u64 = (a as u64) + (b as u64);
    if sum > u32::MAX as u64 {
        u32::MAX
    } else {
        sum as u32
    }
}

/// Multiplication that clamps at the largest representable 32-bit weight.
pub fn sat_mul_u32(a: u32, b: u32) -> (r: u32)
    ensures
        r == spec_sat_mul_u32(a, b),
{
    proof {
        assert((a as int) * (b as int) <= (u32::MAX as int) * (u32::MAX as int))
            by (nonlinear_arith)
            requires
                a <= u32::MAX,
                b <= u32::MAX,
        ;
    }
    let product: u64 = (a as u64) * (b as u64);
    if product > u32::MAX as u64 {
        u32::MAX
    } else {
        product as u32
    }
}

/// Subtraction that clamps at zero.
pub fn sat_sub_u32(a: u32, b: u32) -> (r: u32)
    ensures
        r == spec_sat_sub_u32(a, b),
{
    if a >= b {
        a - b
    } else {
        0
    }
}

/// The batched measurement with its fixed per-invocation overhead
/// removed, clamped at zero.
pub open spec fn spec_cost(measured: Weight, base: Weight) -> Weight {
    if measured >= base {
        (measured - base) as Weight
    } else {
        0 as Weight
    }
}

/// Overhead-corrected measurement divided by the host-call batch size:
/// the marginal weight of one host call.
pub open spec fn spec_cost_batched(measured: Weight, base: Weight) -> Weight {
    spec_cost(measured, base) / (API_BENCHMARK_BATCH_SIZE as Weight)
}

/// Overhead-corrected measurement divided by 1024: the marginal weight
/// per byte when the benchmark varied a byte count in kilobyte steps.
pub open spec fn spec_cost_byte(measured: Weight, base: Weight) -> Weight {
    spec_cost(measured, base) / 1024
}

/// Batch-normalized measurement divided by 1024: the marginal weight per
/// byte of one host call whose benchmark varied a byte count.
pub open spec fn spec_cost_byte_batched(measured: Weight, base: Weight) -> Weight {
    spec_cost_batched(measured, base) / 1024
}

/// Overhead-corrected instruction measurement divided by the given batch
/// size and narrowed to 32 bits, keeping only the low word as the
/// benchmark pipeline does.
pub open spec fn spec_cost_instr_no_params(measured: Weight, base: Weight, batch: u32) -> u32 {
    (((spec_cost(measured, base) / (batch as Weight)) as int) % 0x1_0000_0000) as u32
}

/// The final weight of one instruction with `num_params` parameters.
///
/// An instruction benchmark pads the measured instruction with supporting
/// push-constant instructions, one per parameter, so the normalized
/// push-constant weight halved (push and its matching drop are priced
/// identically) is deducted once per parameter, saturating at zero.
pub open spec fn spec_cost_instr(
    measured: Weight,
    base: Weight,
    const_measured: Weight,
    const_base: Weight,
    num_params: u32,
) -> u32 {
    let normalized = spec_cost_instr_no_params(measured, base, INSTR_BENCHMARK_BATCH_SIZE);
    let per_param = spec_cost_instr_no_params(
        const_measured,
        const_base,
        INSTR_BENCHMARK_BATCH_SIZE,
    ) / 2;
    spec_sat_sub_u32(normalized, spec_sat_mul_u32(per_param, num_params))
}

/// Baseline subtraction: remove the fixed per-invocation overhead `base`
/// from the batched measurement `measured`, clamping at zero.
pub fn cost(measured: Weight, base: Weight) -> (r: Weight)
    ensures
        r == spec_cost(measured, base),
{
    if measured >= base {
        measured - base
    } else {
        0
    }
}

/// The marginal weight of one host call.
pub fn cost_batched(measured: Weight, base: Weight) -> (r: Weight)
    ensures
        r == spec_cost_batched(measured, base),
{
    cost(measured, base) / (API_BENCHMARK_BATCH_SIZE as Weight)
}

/// The marginal weight per byte of a non-batched benchmark.
pub fn cost_byte(measured: Weight, base: Weight) -> (r: Weight)
    ensures
        r == spec_cost_byte(measured, base),
{
    cost(measured, base) / 1024
}

/// The marginal weight per byte of one host call.
pub fn cost_byte_batched(measured: Weight, base: Weight) -> (r: Weight)
    ensures
        r == spec_cost_byte_batched(measured, base),
{
    cost_batched(measured, base) / 1024
}

/// The normalized weight of one instruction without parameters, under the
/// given batch size.
pub fn cost_instr_no_params(measured: Weight, base: Weight, batch: u32) -> (r: u32)
    requires
        batch > 0,
    ensures
        r == spec_cost_instr_no_params(measured, base, batch),
{
    let q: u64 = cost(measured, base) / (batch as u64);
    (q % 0x1_0000_0000) as u32
}

/// The final weight of one instruction with `num_params` parameters,
/// derived from its own measurement and the push-constant measurement.
pub fn cost_instr(
    measured: Weight,
    base: Weight,
    const_measured: Weight,
    const_base: Weight,
    num_params: u32,
) -> (r: u32)
    ensures
        r == spec_cost_instr(measured, base, const_measured, const_base, num_params),
{
    let normalized = cost_instr_no_params(measured, base, INSTR_BENCHMARK_BATCH_SIZE);
    let per_param = cost_instr_no_params(const_measured, const_base, INSTR_BENCHMARK_BATCH_SIZE)
        / 2;
    sat_sub_u32(normalized, sat_mul_u32(per_param, num_params))
}

/// Noise never underflows: whenever the fixed overhead baseline is at
/// least the batched measurement, every derived per-operation weight is
/// exactly zero, whatever the batch size, parameter count, or supporting
/// measurements.
pub proof fn lemma_baseline_dominates_yields_zero(
    measured: Weight,
    base: Weight,
    const_measured: Weight,
    const_base: Weight,
    num_params: u32,
    batch: u32,
)
    requires
        base >= measured,
        batch > 0,
    ensures
        spec_cost(measured, base) == 0,
        spec_cost_batched(measured, base) == 0,
        spec_cost_byte(measured, base) == 0,
        spec_cost_byte_batched(measured, base) == 0,
        spec_cost_instr_no_params(measured, base, batch) == 0,
        spec_cost_instr(measured, base, const_measured, const_base, num_params) == 0,
{
}

} // verus!
