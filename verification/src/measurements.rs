//! Building the weight tables from a raw benchmark measurement table.
//!
//! One row per benchmarked operation: the measurement at one repetition of
//! the variable component and the same benchmark with every variable
//! component at zero (the fixed overhead), plus, for instructions, the
//! number of supporting push-constant instructions the synthetic benchmark
//! module needs per repetition. Adding a newly priced operation means
//! adding one row here. The derivation runs once, when a benchmark run is
//! imported into a schedule, never during per-call metering.

use crate::derivation::{
    cost_batched, cost_byte_batched, cost_instr, spec_cost_batched, spec_cost_byte_batched,
    spec_cost_instr,
};
use crate::host_weights::HostFnWeights;
use crate::instr_weights::InstructionWeights;
use crate::Weight;
use vstd::prelude::*;

verus! {

/// One raw benchmark result: the whole run at one repetition of the
/// variable component, and the same run with it at zero.
#[derive(Clone, Copy, PartialEq, Eq, Structural, Debug)]
pub struct RawMeasurement {
    /// The measured weight of the batched benchmark.
    pub measured: Weight,
    /// The measured weight with every variable repetition count at zero:
    /// the fixed per-invocation overhead.
    pub base: Weight,
}

/// One instruction benchmark row: the raw measurement and the number of
/// supporting push-constant instructions the benchmark pads each
/// repetition with (one per parameter of the instruction).
#[derive(Clone, Copy, PartialEq, Eq, Structural, Debug)]
pub struct InstrMeasurement {
    /// The raw benchmark result for this instruction.
    pub raw: RawMeasurement,
    /// How many supporting push-constant instructions each repetition
    /// carries.
    pub num_params: u32,
}

/// The raw benchmark table for the wasm instructions, one row per weight
/// field.
#[derive(Clone, Copy, PartialEq, Eq, Structural, Debug)]
pub struct InstructionMeasurements {

    pub i64const: InstrMeasurement,
    pub i64load: InstrMeasurement,
    pub i64store: InstrMeasurement,
    pub select: InstrMeasurement,
    pub if_: InstrMeasurement,
    pub br: InstrMeasurement,
    pub br_if: InstrMeasurement,
    pub br_table: InstrMeasurement,
    pub br_table_per_entry: InstrMeasurement,
    pub call: InstrMeasurement,
    pub call_indirect: InstrMeasurement,
    pub call_indirect_per_param: InstrMeasurement,
    pub local_get: InstrMeasurement,
    pub local_set: InstrMeasurement,
    pub local_tee: InstrMeasurement,
    pub global_get: InstrMeasurement,
    pub global_set: InstrMeasurement,
    pub memory_current: InstrMeasurement,
    pub memory_grow: InstrMeasurement,
    pub i64clz: InstrMeasurement,
    pub i64ctz: InstrMeasurement,
    pub i64popcnt: InstrMeasurement,
    pub i64eqz: InstrMeasurement,
    pub i64extendsi32: InstrMeasurement,
    pub i64extendui32: InstrMeasurement,
    pub i32wrapi64: InstrMeasurement,
    pub i64eq: InstrMeasurement,
    pub i64ne: InstrMeasurement,
    pub i64lts: InstrMeasurement,
    pub i64ltu: InstrMeasurement,
    pub i64gts: InstrMeasurement,
    pub i64gtu: InstrMeasurement,
    pub i64les: InstrMeasurement,
    pub i64leu: InstrMeasurement,
    pub i64ges: InstrMeasurement,
    pub i64geu: InstrMeasurement,
    pub i64add: InstrMeasurement,
    pub i64sub: InstrMeasurement,
    pub i64mul: InstrMeasurement,
    pub i64divs: InstrMeasurement,
    pub i64divu: InstrMeasurement,
    pub i64rems: InstrMeasurement,
    pub i64remu: InstrMeasurement,
    pub i64and: InstrMeasurement,
    pub i64or: InstrMeasurement,
    pub i64xor: InstrMeasurement,
    pub i64shl: InstrMeasurement,
    pub i64shrs: InstrMeasurement,
    pub i64shru: InstrMeasurement,
    pub i64rotl: InstrMeasurement,
    pub i64rotr: InstrMeasurement,
}

/// The raw benchmark table for the host capabilities, one row per weight
/// field.
#[derive(Clone, Copy, PartialEq, Eq, Structural, Debug)]
pub struct HostFnMeasurements {

    pub caller: RawMeasurement,
    pub address: RawMeasurement,
    pub gas_left: RawMeasurement,
    pub balance: RawMeasurement,
    pub value_transferred: RawMeasurement,
    pub minimum_balance: RawMeasurement,
    pub tombstone_deposit: RawMeasurement,
    pub rent_allowance: RawMeasurement,
    pub block_number: RawMeasurement,
    pub now: RawMeasurement,
    pub weight_to_fee: RawMeasurement,
    pub gas: RawMeasurement,
    pub input: RawMeasurement,
    pub input_per_byte: RawMeasurement,
    pub return_: RawMeasurement,
    pub return_per_byte: RawMeasurement,
    pub terminate: RawMeasurement,
    pub terminate_per_code_byte: RawMeasurement,
    pub restore_to: RawMeasurement,
    pub restore_to_per_caller_code_byte: RawMeasurement,
    pub restore_to_per_tombstone_code_byte: RawMeasurement,
    pub restore_to_per_delta: RawMeasurement,
    pub random: RawMeasurement,
    pub deposit_event: RawMeasurement,
    pub deposit_event_per_topic: RawMeasurement,
    pub deposit_event_per_byte: RawMeasurement,
    pub set_rent_allowance: RawMeasurement,
    pub set_storage: RawMeasurement,
    pub set_storage_per_byte: RawMeasurement,
    pub clear_storage: RawMeasurement,
    pub get_storage: RawMeasurement,
    pub get_storage_per_byte: RawMeasurement,
    pub transfer: RawMeasurement,
    pub call: RawMeasurement,
    pub call_per_code_byte: RawMeasurement,
    pub call_transfer_surcharge: RawMeasurement,
    pub call_per_input_byte: RawMeasurement,
    pub call_per_output_byte: RawMeasurement,
    pub instantiate: RawMeasurement,
    pub instantiate_per_code_byte: RawMeasurement,
    pub instantiate_per_input_byte: RawMeasurement,
    pub instantiate_per_output_byte: RawMeasurement,
    pub instantiate_per_salt_byte: RawMeasurement,
    pub hash_sha2_256: RawMeasurement,
    pub hash_sha2_256_per_byte: RawMeasurement,
    pub hash_keccak_256: RawMeasurement,
    pub hash_keccak_256_per_byte: RawMeasurement,
    pub hash_blake2_256: RawMeasurement,
    pub hash_blake2_256_per_byte: RawMeasurement,
    pub hash_blake2_128: RawMeasurement,
    pub hash_blake2_128_per_byte: RawMeasurement,
    pub rent_params: RawMeasurement,
}

/// The instruction weight each row of the table derives to: its own
/// normalized measurement minus the per-parameter share of the normalized
/// push-constant measurement.
pub open spec fn spec_derived_instr(m: InstructionMeasurements) -> InstructionWeights {
    InstructionWeights {

        i64const: spec_cost_instr(m.i64const.raw.measured, m.i64const.raw.base, m.i64const.raw.measured, m.i64const.raw.base, m.i64const.num_params),
        i64load: spec_cost_instr(m.i64load.raw.measured, m.i64load.raw.base, m.i64const.raw.measured, m.i64const.raw.base, m.i64load.num_params),
        i64store: spec_cost_instr(m.i64store.raw.measured, m.i64store.raw.base, m.i64const.raw.measured, m.i64const.raw.base, m.i64store.num_params),
        select: spec_cost_instr(m.select.raw.measured, m.select.raw.base, m.i64const.raw.measured, m.i64const.raw.base, m.select.num_params),
        if_: spec_cost_instr(m.if_.raw.measured, m.if_.raw.base, m.i64const.raw.measured, m.i64const.raw.base, m.if_.num_params),
        br: spec_cost_instr(m.br.raw.measured, m.br.raw.base, m.i64const.raw.measured, m.i64const.raw.base, m.br.num_params),
        br_if: spec_cost_instr(m.br_if.raw.measured, m.br_if.raw.base, m.i64const.raw.measured, m.i64const.raw.base, m.br_if.num_params),
        br_table: spec_cost_instr(m.br_table.raw.measured, m.br_table.raw.base, m.i64const.raw.measured, m.i64const.raw.base, m.br_table.num_params),
        br_table_per_entry: spec_cost_instr(m.br_table_per_entry.raw.measured, m.br_table_per_entry.raw.base, m.i64const.raw.measured, m.i64const.raw.base, m.br_table_per_entry.num_params),
        call: spec_cost_instr(m.call.raw.measured, m.call.raw.base, m.i64const.raw.measured, m.i64const.raw.base, m.call.num_params),
        call_indirect: spec_cost_instr(m.call_indirect.raw.measured, m.call_indirect.raw.base, m.i64const.raw.measured, m.i64const.raw.base, m.call_indirect.num_params),
        call_indirect_per_param: spec_cost_instr(m.call_indirect_per_param.raw.measured, m.call_indirect_per_param.raw.base, m.i64const.raw.measured, m.i64const.raw.base, m.call_indirect_per_param.num_params),
        local_get: spec_cost_instr(m.local_get.raw.measured, m.local_get.raw.base, m.i64const.raw.measured, m.i64const.raw.base, m.local_get.num_params),
        local_set: spec_cost_instr(m.local_set.raw.measured, m.local_set.raw.base, m.i64const.raw.measured, m.i64const.raw.base, m.local_set.num_params),
        local_tee: spec_cost_instr(m.local_tee.raw.measured, m.local_tee.raw.base, m.i64const.raw.measured, m.i64const.raw.base, m.local_tee.num_params),
        global_get: spec_cost_instr(m.global_get.raw.measured, m.global_get.raw.base, m.i64const.raw.measured, m.i64const.raw.base, m.global_get.num_params),
        global_set: spec_cost_instr(m.global_set.raw.measured, m.global_set.raw.base, m.i64const.raw.measured, m.i64const.raw.base, m.global_set.num_params),
        memory_current: spec_cost_instr(m.memory_current.raw.measured, m.memory_current.raw.base, m.i64const.raw.measured, m.i64const.raw.base, m.memory_current.num_params),
        memory_grow: spec_cost_instr(m.memory_grow.raw.measured, m.memory_grow.raw.base, m.i64const.raw.measured, m.i64const.raw.base, m.memory_grow.num_params),
        i64clz: spec_cost_instr(m.i64clz.raw.measured, m.i64clz.raw.base, m.i64const.raw.measured, m.i64const.raw.base, m.i64clz.num_params),
        i64ctz: spec_cost_instr(m.i64ctz.raw.measured, m.i64ctz.raw.base, m.i64const.raw.measured, m.i64const.raw.base, m.i64ctz.num_params),
        i64popcnt: spec_cost_instr(m.i64popcnt.raw.measured, m.i64popcnt.raw.base, m.i64const.raw.measured, m.i64const.raw.base, m.i64popcnt.num_params),
        i64eqz: spec_cost_instr(m.i64eqz.raw.measured, m.i64eqz.raw.base, m.i64const.raw.measured, m.i64const.raw.base, m.i64eqz.num_params),
        i64extendsi32: spec_cost_instr(m.i64extendsi32.raw.measured, m.i64extendsi32.raw.base, m.i64const.raw.measured, m.i64const.raw.base, m.i64extendsi32.num_params),
        i64extendui32: spec_cost_instr(m.i64extendui32.raw.measured, m.i64extendui32.raw.base, m.i64const.raw.measured, m.i64const.raw.base, m.i64extendui32.num_params),
        i32wrapi64: spec_cost_instr(m.i32wrapi64.raw.measured, m.i32wrapi64.raw.base, m.i64const.raw.measured, m.i64const.raw.base, m.i32wrapi64.num_params),
        i64eq: spec_cost_instr(m.i64eq.raw.measured, m.i64eq.raw.base, m.i64const.raw.measured, m.i64const.raw.base, m.i64eq.num_params),
        i64ne: spec_cost_instr(m.i64ne.raw.measured, m.i64ne.raw.base, m.i64const.raw.measured, m.i64const.raw.base, m.i64ne.num_params),
        i64lts: spec_cost_instr(m.i64lts.raw.measured, m.i64lts.raw.base, m.i64const.raw.measured, m.i64const.raw.base, m.i64lts.num_params),
        i64ltu: spec_cost_instr(m.i64ltu.raw.measured, m.i64ltu.raw.base, m.i64const.raw.measured, m.i64const.raw.base, m.i64ltu.num_params),
        i64gts: spec_cost_instr(m.i64gts.raw.measured, m.i64gts.raw.base, m.i64const.raw.measured, m.i64const.raw.base, m.i64gts.num_params),
        i64gtu: spec_cost_instr(m.i64gtu.raw.measured, m.i64gtu.raw.base, m.i64const.raw.measured, m.i64const.raw.base, m.i64gtu.num_params),
        i64les: spec_cost_instr(m.i64les.raw.measured, m.i64les.raw.base, m.i64const.raw.measured, m.i64const.raw.base, m.i64les.num_params),
        i64leu: spec_cost_instr(m.i64leu.raw.measured, m.i64leu.raw.base, m.i64const.raw.measured, m.i64const.raw.base, m.i64leu.num_params),
        i64ges: spec_cost_instr(m.i64ges.raw.measured, m.i64ges.raw.base, m.i64const.raw.measured, m.i64const.raw.base, m.i64ges.num_params),
        i64geu: spec_cost_instr(m.i64geu.raw.measured, m.i64geu.raw.base, m.i64const.raw.measured, m.i64const.raw.base, m.i64geu.num_params),
        i64add: spec_cost_instr(m.i64add.raw.measured, m.i64add.raw.base, m.i64const.raw.measured, m.i64const.raw.base, m.i64add.num_params),
        i64sub: spec_cost_instr(m.i64sub.raw.measured, m.i64sub.raw.base, m.i64const.raw.measured, m.i64const.raw.base, m.i64sub.num_params),
        i64mul: spec_cost_instr(m.i64mul.raw.measured, m.i64mul.raw.base, m.i64const.raw.measured, m.i64const.raw.base, m.i64mul.num_params),
        i64divs: spec_cost_instr(m.i64divs.raw.measured, m.i64divs.raw.base, m.i64const.raw.measured, m.i64const.raw.base, m.i64divs.num_params),
        i64divu: spec_cost_instr(m.i64divu.raw.measured, m.i64divu.raw.base, m.i64const.raw.measured, m.i64const.raw.base, m.i64divu.num_params),
        i64rems: spec_cost_instr(m.i64rems.raw.measured, m.i64rems.raw.base, m.i64const.raw.measured, m.i64const.raw.base, m.i64rems.num_params),
        i64remu: spec_cost_instr(m.i64remu.raw.measured, m.i64remu.raw.base, m.i64const.raw.measured, m.i64const.raw.base, m.i64remu.num_params),
        i64and: spec_cost_instr(m.i64and.raw.measured, m.i64and.raw.base, m.i64const.raw.measured, m.i64const.raw.base, m.i64and.num_params),
        i64or: spec_cost_instr(m.i64or.raw.measured, m.i64or.raw.base, m.i64const.raw.measured, m.i64const.raw.base, m.i64or.num_params),
        i64xor: spec_cost_instr(m.i64xor.raw.measured, m.i64xor.raw.base, m.i64const.raw.measured, m.i64const.raw.base, m.i64xor.num_params),
        i64shl: spec_cost_instr(m.i64shl.raw.measured, m.i64shl.raw.base, m.i64const.raw.measured, m.i64const.raw.base, m.i64shl.num_params),
        i64shrs: spec_cost_instr(m.i64shrs.raw.measured, m.i64shrs.raw.base, m.i64const.raw.measured, m.i64const.raw.base, m.i64shrs.num_params),
        i64shru: spec_cost_instr(m.i64shru.raw.measured, m.i64shru.raw.base, m.i64const.raw.measured, m.i64const.raw.base, m.i64shru.num_params),
        i64rotl: spec_cost_instr(m.i64rotl.raw.measured, m.i64rotl.raw.base, m.i64const.raw.measured, m.i64const.raw.base, m.i64rotl.num_params),
        i64rotr: spec_cost_instr(m.i64rotr.raw.measured, m.i64rotr.raw.base, m.i64const.raw.measured, m.i64const.raw.base, m.i64rotr.num_params),
    }
}

/// The host function weight each row of the table derives to: the
/// batch-normalized measurement, further divided by 1024 for the per-byte
/// rows, whose benchmarks vary a byte count in kilobyte steps.
pub open spec fn spec_derived_host(m: HostFnMeasurements) -> HostFnWeights {
    HostFnWeights {

        caller: spec_cost_batched(m.caller.measured, m.caller.base),
        address: spec_cost_batched(m.address.measured, m.address.base),
        gas_left: spec_cost_batched(m.gas_left.measured, m.gas_left.base),
        balance: spec_cost_batched(m.balance.measured, m.balance.base),
        value_transferred: spec_cost_batched(m.value_transferred.measured, m.value_transferred.base),
        minimum_balance: spec_cost_batched(m.minimum_balance.measured, m.minimum_balance.base),
        tombstone_deposit: spec_cost_batched(m.tombstone_deposit.measured, m.tombstone_deposit.base),
        rent_allowance: spec_cost_batched(m.rent_allowance.measured, m.rent_allowance.base),
        block_number: spec_cost_batched(m.block_number.measured, m.block_number.base),
        now: spec_cost_batched(m.now.measured, m.now.base),
        weight_to_fee: spec_cost_batched(m.weight_to_fee.measured, m.weight_to_fee.base),
        gas: spec_cost_batched(m.gas.measured, m.gas.base),
        input: spec_cost_batched(m.input.measured, m.input.base),
        input_per_byte: spec_cost_byte_batched(m.input_per_byte.measured, m.input_per_byte.base),
        return_: spec_cost_batched(m.return_.measured, m.return_.base),
        return_per_byte: spec_cost_byte_batched(m.return_per_byte.measured, m.return_per_byte.base),
        terminate: spec_cost_batched(m.terminate.measured, m.terminate.base),
        terminate_per_code_byte: spec_cost_byte_batched(m.terminate_per_code_byte.measured, m.terminate_per_code_byte.base),
        restore_to: spec_cost_batched(m.restore_to.measured, m.restore_to.base),
        restore_to_per_caller_code_byte: spec_cost_byte_batched(m.restore_to_per_caller_code_byte.measured, m.restore_to_per_caller_code_byte.base),
        restore_to_per_tombstone_code_byte: spec_cost_byte_batched(m.restore_to_per_tombstone_code_byte.measured, m.restore_to_per_tombstone_code_byte.base),
        restore_to_per_delta: spec_cost_batched(m.restore_to_per_delta.measured, m.restore_to_per_delta.base),
        random: spec_cost_batched(m.random.measured, m.random.base),
        deposit_event: spec_cost_batched(m.deposit_event.measured, m.deposit_event.base),
        deposit_event_per_topic: spec_cost_batched(m.deposit_event_per_topic.measured, m.deposit_event_per_topic.base),
        deposit_event_per_byte: spec_cost_byte_batched(m.deposit_event_per_byte.measured, m.deposit_event_per_byte.base),
        set_rent_allowance: spec_cost_batched(m.set_rent_allowance.measured, m.set_rent_allowance.base),
        set_storage: spec_cost_batched(m.set_storage.measured, m.set_storage.base),
        set_storage_per_byte: spec_cost_byte_batched(m.set_storage_per_byte.measured, m.set_storage_per_byte.base),
        clear_storage: spec_cost_batched(m.clear_storage.measured, m.clear_storage.base),
        get_storage: spec_cost_batched(m.get_storage.measured, m.get_storage.base),
        get_storage_per_byte: spec_cost_byte_batched(m.get_storage_per_byte.measured, m.get_storage_per_byte.base),
        transfer: spec_cost_batched(m.transfer.measured, m.transfer.base),
        call: spec_cost_batched(m.call.measured, m.call.base),
        call_per_code_byte: spec_cost_byte_batched(m.call_per_code_byte.measured, m.call_per_code_byte.base),
        call_transfer_surcharge: spec_cost_batched(m.call_transfer_surcharge.measured, m.call_transfer_surcharge.base),
        call_per_input_byte: spec_cost_byte_batched(m.call_per_input_byte.measured, m.call_per_input_byte.base),
        call_per_output_byte: spec_cost_byte_batched(m.call_per_output_byte.measured, m.call_per_output_byte.base),
        instantiate: spec_cost_batched(m.instantiate.measured, m.instantiate.base),
        instantiate_per_code_byte: spec_cost_byte_batched(m.instantiate_per_code_byte.measured, m.instantiate_per_code_byte.base),
        instantiate_per_input_byte: spec_cost_byte_batched(m.instantiate_per_input_byte.measured, m.instantiate_per_input_byte.base),
        instantiate_per_output_byte: spec_cost_byte_batched(m.instantiate_per_output_byte.measured, m.instantiate_per_output_byte.base),
        instantiate_per_salt_byte: spec_cost_byte_batched(m.instantiate_per_salt_byte.measured, m.instantiate_per_salt_byte.base),
        hash_sha2_256: spec_cost_batched(m.hash_sha2_256.measured, m.hash_sha2_256.base),
        hash_sha2_256_per_byte: spec_cost_byte_batched(m.hash_sha2_256_per_byte.measured, m.hash_sha2_256_per_byte.base),
        hash_keccak_256: spec_cost_batched(m.hash_keccak_256.measured, m.hash_keccak_256.base),
        hash_keccak_256_per_byte: spec_cost_byte_batched(m.hash_keccak_256_per_byte.measured, m.hash_keccak_256_per_byte.base),
        hash_blake2_256: spec_cost_batched(m.hash_blake2_256.measured, m.hash_blake2_256.base),
        hash_blake2_256_per_byte: spec_cost_byte_batched(m.hash_blake2_256_per_byte.measured, m.hash_blake2_256_per_byte.base),
        hash_blake2_128: spec_cost_batched(m.hash_blake2_128.measured, m.hash_blake2_128.base),
        hash_blake2_128_per_byte: spec_cost_byte_batched(m.hash_blake2_128_per_byte.measured, m.hash_blake2_128_per_byte.base),
        rent_params: spec_cost_batched(m.rent_params.measured, m.rent_params.base),
    }
}

impl InstructionWeights {
    /// Derive the whole instruction weight table from a raw benchmark
    /// table, one normalized weight per row.
    #[verifier::rlimit(100)]
    pub fn derive(m: &InstructionMeasurements) -> (r: Self)
        ensures
            r == spec_derived_instr(*m),
    {
        InstructionWeights {

            i64const: cost_instr(m.i64const.raw.measured, m.i64const.raw.base, m.i64const.raw.measured, m.i64const.raw.base, m.i64const.num_params),
            i64load: cost_instr(m.i64load.raw.measured, m.i64load.raw.base, m.i64const.raw.measured, m.i64const.raw.base, m.i64load.num_params),
            i64store: cost_instr(m.i64store.raw.measured, m.i64store.raw.base, m.i64const.raw.measured, m.i64const.raw.base, m.i64store.num_params),
            select: cost_instr(m.select.raw.measured, m.select.raw.base, m.i64const.raw.measured, m.i64const.raw.base, m.select.num_params),
            if_: cost_instr(m.if_.raw.measured, m.if_.raw.base, m.i64const.raw.measured, m.i64const.raw.base, m.if_.num_params),
            br: cost_instr(m.br.raw.measured, m.br.raw.base, m.i64const.raw.measured, m.i64const.raw.base, m.br.num_params),
            br_if: cost_instr(m.br_if.raw.measured, m.br_if.raw.base, m.i64const.raw.measured, m.i64const.raw.base, m.br_if.num_params),
            br_table: cost_instr(m.br_table.raw.measured, m.br_table.raw.base, m.i64const.raw.measured, m.i64const.raw.base, m.br_table.num_params),
            br_table_per_entry: cost_instr(m.br_table_per_entry.raw.measured, m.br_table_per_entry.raw.base, m.i64const.raw.measured, m.i64const.raw.base, m.br_table_per_entry.num_params),
            call: cost_instr(m.call.raw.measured, m.call.raw.base, m.i64const.raw.measured, m.i64const.raw.base, m.call.num_params),
            call_indirect: cost_instr(m.call_indirect.raw.measured, m.call_indirect.raw.base, m.i64const.raw.measured, m.i64const.raw.base, m.call_indirect.num_params),
            call_indirect_per_param: cost_instr(m.call_indirect_per_param.raw.measured, m.call_indirect_per_param.raw.base, m.i64const.raw.measured, m.i64const.raw.base, m.call_indirect_per_param.num_params),
            local_get: cost_instr(m.local_get.raw.measured, m.local_get.raw.base, m.i64const.raw.measured, m.i64const.raw.base, m.local_get.num_params),
            local_set: cost_instr(m.local_set.raw.measured, m.local_set.raw.base, m.i64const.raw.measured, m.i64const.raw.base, m.local_set.num_params),
            local_tee: cost_instr(m.local_tee.raw.measured, m.local_tee.raw.base, m.i64const.raw.measured, m.i64const.raw.base, m.local_tee.num_params),
            global_get: cost_instr(m.global_get.raw.measured, m.global_get.raw.base, m.i64const.raw.measured, m.i64const.raw.base, m.global_get.num_params),
            global_set: cost_instr(m.global_set.raw.measured, m.global_set.raw.base, m.i64const.raw.measured, m.i64const.raw.base, m.global_set.num_params),
            memory_current: cost_instr(m.memory_current.raw.measured, m.memory_current.raw.base, m.i64const.raw.measured, m.i64const.raw.base, m.memory_current.num_params),
            memory_grow: cost_instr(m.memory_grow.raw.measured, m.memory_grow.raw.base, m.i64const.raw.measured, m.i64const.raw.base, m.memory_grow.num_params),
            i64clz: cost_instr(m.i64clz.raw.measured, m.i64clz.raw.base, m.i64const.raw.measured, m.i64const.raw.base, m.i64clz.num_params),
            i64ctz: cost_instr(m.i64ctz.raw.measured, m.i64ctz.raw.base, m.i64const.raw.measured, m.i64const.raw.base, m.i64ctz.num_params),
            i64popcnt: cost_instr(m.i64popcnt.raw.measured, m.i64popcnt.raw.base, m.i64const.raw.measured, m.i64const.raw.base, m.i64popcnt.num_params),
            i64eqz: cost_instr(m.i64eqz.raw.measured, m.i64eqz.raw.base, m.i64const.raw.measured, m.i64const.raw.base, m.i64eqz.num_params),
            i64extendsi32: cost_instr(m.i64extendsi32.raw.measured, m.i64extendsi32.raw.base, m.i64const.raw.measured, m.i64const.raw.base, m.i64extendsi32.num_params),
            i64extendui32: cost_instr(m.i64extendui32.raw.measured, m.i64extendui32.raw.base, m.i64const.raw.measured, m.i64const.raw.base, m.i64extendui32.num_params),
            i32wrapi64: cost_instr(m.i32wrapi64.raw.measured, m.i32wrapi64.raw.base, m.i64const.raw.measured, m.i64const.raw.base, m.i32wrapi64.num_params),
            i64eq: cost_instr(m.i64eq.raw.measured, m.i64eq.raw.base, m.i64const.raw.measured, m.i64const.raw.base, m.i64eq.num_params),
            i64ne: cost_instr(m.i64ne.raw.measured, m.i64ne.raw.base, m.i64const.raw.measured, m.i64const.raw.base, m.i64ne.num_params),
            i64lts: cost_instr(m.i64lts.raw.measured, m.i64lts.raw.base, m.i64const.raw.measured, m.i64const.raw.base, m.i64lts.num_params),
            i64ltu: cost_instr(m.i64ltu.raw.measured, m.i64ltu.raw.base, m.i64const.raw.measured, m.i64const.raw.base, m.i64ltu.num_params),
            i64gts: cost_instr(m.i64gts.raw.measured, m.i64gts.raw.base, m.i64const.raw.measured, m.i64const.raw.base, m.i64gts.num_params),
            i64gtu: cost_instr(m.i64gtu.raw.measured, m.i64gtu.raw.base, m.i64const.raw.measured, m.i64const.raw.base, m.i64gtu.num_params),
            i64les: cost_instr(m.i64les.raw.measured, m.i64les.raw.base, m.i64const.raw.measured, m.i64const.raw.base, m.i64les.num_params),
            i64leu: cost_instr(m.i64leu.raw.measured, m.i64leu.raw.base, m.i64const.raw.measured, m.i64const.raw.base, m.i64leu.num_params),
            i64ges: cost_instr(m.i64ges.raw.measured, m.i64ges.raw.base, m.i64const.raw.measured, m.i64const.raw.base, m.i64ges.num_params),
            i64geu: cost_instr(m.i64geu.raw.measured, m.i64geu.raw.base, m.i64const.raw.measured, m.i64const.raw.base, m.i64geu.num_params),
            i64add: cost_instr(m.i64add.raw.measured, m.i64add.raw.base, m.i64const.raw.measured, m.i64const.raw.base, m.i64add.num_params),
            i64sub: cost_instr(m.i64sub.raw.measured, m.i64sub.raw.base, m.i64const.raw.measured, m.i64const.raw.base, m.i64sub.num_params),
            i64mul: cost_instr(m.i64mul.raw.measured, m.i64mul.raw.base, m.i64const.raw.measured, m.i64const.raw.base, m.i64mul.num_params),
            i64divs: cost_instr(m.i64divs.raw.measured, m.i64divs.raw.base, m.i64const.raw.measured, m.i64const.raw.base, m.i64divs.num_params),
            i64divu: cost_instr(m.i64divu.raw.measured, m.i64divu.raw.base, m.i64const.raw.measured, m.i64const.raw.base, m.i64divu.num_params),
            i64rems: cost_instr(m.i64rems.raw.measured, m.i64rems.raw.base, m.i64const.raw.measured, m.i64const.raw.base, m.i64rems.num_params),
            i64remu: cost_instr(m.i64remu.raw.measured, m.i64remu.raw.base, m.i64const.raw.measured, m.i64const.raw.base, m.i64remu.num_params),
            i64and: cost_instr(m.i64and.raw.measured, m.i64and.raw.base, m.i64const.raw.measured, m.i64const.raw.base, m.i64and.num_params),
            i64or: cost_instr(m.i64or.raw.measured, m.i64or.raw.base, m.i64const.raw.measured, m.i64const.raw.base, m.i64or.num_params),
            i64xor: cost_instr(m.i64xor.raw.measured, m.i64xor.raw.base, m.i64const.raw.measured, m.i64const.raw.base, m.i64xor.num_params),
            i64shl: cost_instr(m.i64shl.raw.measured, m.i64shl.raw.base, m.i64const.raw.measured, m.i64const.raw.base, m.i64shl.num_params),
            i64shrs: cost_instr(m.i64shrs.raw.measured, m.i64shrs.raw.base, m.i64const.raw.measured, m.i64const.raw.base, m.i64shrs.num_params),
            i64shru: cost_instr(m.i64shru.raw.measured, m.i64shru.raw.base, m.i64const.raw.measured, m.i64const.raw.base, m.i64shru.num_params),
            i64rotl: cost_instr(m.i64rotl.raw.measured, m.i64rotl.raw.base, m.i64const.raw.measured, m.i64const.raw.base, m.i64rotl.num_params),
            i64rotr: cost_instr(m.i64rotr.raw.measured, m.i64rotr.raw.base, m.i64const.raw.measured, m.i64const.raw.base, m.i64rotr.num_params),
        }
    }
}

impl HostFnWeights {
    /// Derive the whole host function weight table from a raw benchmark
    /// table, one batch-normalized weight per row.
    #[verifier::rlimit(100)]
    pub fn derive(m: &HostFnMeasurements) -> (r: Self)
        ensures
            r == spec_derived_host(*m),
    {
        HostFnWeights {

            caller: cost_batched(m.caller.measured, m.caller.base),
            address: cost_batched(m.address.measured, m.address.base),
            gas_left: cost_batched(m.gas_left.measured, m.gas_left.base),
            balance: cost_batched(m.balance.measured, m.balance.base),
            value_transferred: cost_batched(m.value_transferred.measured, m.value_transferred.base),
            minimum_balance: cost_batched(m.minimum_balance.measured, m.minimum_balance.base),
            tombstone_deposit: cost_batched(m.tombstone_deposit.measured, m.tombstone_deposit.base),
            rent_allowance: cost_batched(m.rent_allowance.measured, m.rent_allowance.base),
            block_number: cost_batched(m.block_number.measured, m.block_number.base),
            now: cost_batched(m.now.measured, m.now.base),
            weight_to_fee: cost_batched(m.weight_to_fee.measured, m.weight_to_fee.base),
            gas: cost_batched(m.gas.measured, m.gas.base),
            input: cost_batched(m.input.measured, m.input.base),
            input_per_byte: cost_byte_batched(m.input_per_byte.measured, m.input_per_byte.base),
            return_: cost_batched(m.return_.measured, m.return_.base),
            return_per_byte: cost_byte_batched(m.return_per_byte.measured, m.return_per_byte.base),
            terminate: cost_batched(m.terminate.measured, m.terminate.base),
            terminate_per_code_byte: cost_byte_batched(m.terminate_per_code_byte.measured, m.terminate_per_code_byte.base),
            restore_to: cost_batched(m.restore_to.measured, m.restore_to.base),
            restore_to_per_caller_code_byte: cost_byte_batched(m.restore_to_per_caller_code_byte.measured, m.restore_to_per_caller_code_byte.base),
            restore_to_per_tombstone_code_byte: cost_byte_batched(m.restore_to_per_tombstone_code_byte.measured, m.restore_to_per_tombstone_code_byte.base),
            restore_to_per_delta: cost_batched(m.restore_to_per_delta.measured, m.restore_to_per_delta.base),
            random: cost_batched(m.random.measured, m.random.base),
            deposit_event: cost_batched(m.deposit_event.measured, m.deposit_event.base),
            deposit_event_per_topic: cost_batched(m.deposit_event_per_topic.measured, m.deposit_event_per_topic.base),
            deposit_event_per_byte: cost_byte_batched(m.deposit_event_per_byte.measured, m.deposit_event_per_byte.base),
            set_rent_allowance: cost_batched(m.set_rent_allowance.measured, m.set_rent_allowance.base),
            set_storage: cost_batched(m.set_storage.measured, m.set_storage.base),
            set_storage_per_byte: cost_byte_batched(m.set_storage_per_byte.measured, m.set_storage_per_byte.base),
            clear_storage: cost_batched(m.clear_storage.measured, m.clear_storage.base),
            get_storage: cost_batched(m.get_storage.measured, m.get_storage.base),
            get_storage_per_byte: cost_byte_batched(m.get_storage_per_byte.measured, m.get_storage_per_byte.base),
            transfer: cost_batched(m.transfer.measured, m.transfer.base),
            call: cost_batched(m.call.measured, m.call.base),
            call_per_code_byte: cost_byte_batched(m.call_per_code_byte.measured, m.call_per_code_byte.base),
            call_transfer_surcharge: cost_batched(m.call_transfer_surcharge.measured, m.call_transfer_surcharge.base),
            call_per_input_byte: cost_byte_batched(m.call_per_input_byte.measured, m.call_per_input_byte.base),
            call_per_output_byte: cost_byte_batched(m.call_per_output_byte.measured, m.call_per_output_byte.base),
            instantiate: cost_batched(m.instantiate.measured, m.instantiate.base),
            instantiate_per_code_byte: cost_byte_batched(m.instantiate_per_code_byte.measured, m.instantiate_per_code_byte.base),
            instantiate_per_input_byte: cost_byte_batched(m.instantiate_per_input_byte.measured, m.instantiate_per_input_byte.base),
            instantiate_per_output_byte: cost_byte_batched(m.instantiate_per_output_byte.measured, m.instantiate_per_output_byte.base),
            instantiate_per_salt_byte: cost_byte_batched(m.instantiate_per_salt_byte.measured, m.instantiate_per_salt_byte.base),
            hash_sha2_256: cost_batched(m.hash_sha2_256.measured, m.hash_sha2_256.base),
            hash_sha2_256_per_byte: cost_byte_batched(m.hash_sha2_256_per_byte.measured, m.hash_sha2_256_per_byte.base),
            hash_keccak_256: cost_batched(m.hash_keccak_256.measured, m.hash_keccak_256.base),
            hash_keccak_256_per_byte: cost_byte_batched(m.hash_keccak_256_per_byte.measured, m.hash_keccak_256_per_byte.base),
            hash_blake2_256: cost_batched(m.hash_blake2_256.measured, m.hash_blake2_256.base),
            hash_blake2_256_per_byte: cost_byte_batched(m.hash_blake2_256_per_byte.measured, m.hash_blake2_256_per_byte.base),
            hash_blake2_128: cost_batched(m.hash_blake2_128.measured, m.hash_blake2_128.base),
            hash_blake2_128_per_byte: cost_byte_batched(m.hash_blake2_128_per_byte.measured, m.hash_blake2_128_per_byte.base),
            rent_params: cost_batched(m.rent_params.measured, m.rent_params.base),
        }
    }
}

} // verus!
