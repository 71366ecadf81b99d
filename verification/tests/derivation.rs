//! The benchmark-normalization procedure on synthetic raw measurements.

use contract_schedule::host_weights::HostFnWeights;
use contract_schedule::instr_weights::InstructionWeights;
use contract_schedule::measurements::{
    HostFnMeasurements, InstrMeasurement, InstructionMeasurements, RawMeasurement,
};
use contract_schedule::derivation::{
    cost, cost_batched, cost_byte, cost_byte_batched, cost_instr, cost_instr_no_params,
    API_BENCHMARK_BATCH_SIZE, INSTR_BENCHMARK_BATCH_SIZE,
};

#[test]
fn batch_sizes_are_the_published_constants() {
    assert_eq!(API_BENCHMARK_BATCH_SIZE, 100);
    assert_eq!(INSTR_BENCHMARK_BATCH_SIZE, 1000);
}

#[test]
fn baseline_is_subtracted_before_normalization() {
    // 250_000 measured, 50_000 fixed overhead, batch of 100 calls.
    assert_eq!(cost(250_000, 50_000), 200_000);
    assert_eq!(cost_batched(250_000, 50_000), 2_000);
    assert_eq!(cost_byte(250_000 + 1024 * 3, 250_000), 3);
    assert_eq!(cost_byte_batched(250_000, 45_200), 2);
}

#[test]
fn baseline_exceeding_measurement_derives_zero() {
    assert_eq!(cost(100, 101), 0);
    assert_eq!(cost(0, u64::MAX), 0);
    assert_eq!(cost_batched(5, 500), 0);
    assert_eq!(cost_byte(5, 500), 0);
    assert_eq!(cost_byte_batched(5, 500), 0);
    assert_eq!(cost_instr_no_params(7, 7000, 1000), 0);
    assert_eq!(cost_instr(7, 7000, 123, 45, 9), 0);
}

#[test]
fn instruction_weight_deducts_supporting_pushes() {
    // The instruction benchmark measured 5_000_000 over a batch of 1000
    // with 2_000_000 overhead: 3_000 per instruction. The push-constant
    // benchmark normalizes to 1_000, of which half is attributed to the
    // push; two parameters cost 2 * 500 = 1_000.
    assert_eq!(cost_instr_no_params(5_000_000, 2_000_000, 1000), 3_000);
    assert_eq!(cost_instr(5_000_000, 2_000_000, 3_000_000, 2_000_000, 2), 2_000);
    // Zero parameters: no deduction at all.
    assert_eq!(cost_instr(5_000_000, 2_000_000, 3_000_000, 2_000_000, 0), 3_000);
    // The deduction saturates at zero instead of underflowing.
    assert_eq!(cost_instr(2_100_000, 2_000_000, 3_000_000, 2_000_000, 5), 0);
}

#[test]
fn normalization_keeps_only_the_low_word() {
    // A pathological measurement whose per-instruction quotient exceeds
    // 32 bits is narrowed to its low 32 bits, as the pipeline's cast does.
    let q = (7u64 << 32) + 9;
    assert_eq!(cost_instr_no_params(q * 1000, 0, 1000), 9);
}

fn uniform_instr_table(row: InstrMeasurement) -> InstructionMeasurements {
    InstructionMeasurements {
        i64const: row,
        i64load: row,
        i64store: row,
        select: row,
        if_: row,
        br: row,
        br_if: row,
        br_table: row,
        br_table_per_entry: row,
        call: row,
        call_indirect: row,
        call_indirect_per_param: row,
        local_get: row,
        local_set: row,
        local_tee: row,
        global_get: row,
        global_set: row,
        memory_current: row,
        memory_grow: row,
        i64clz: row,
        i64ctz: row,
        i64popcnt: row,
        i64eqz: row,
        i64extendsi32: row,
        i64extendui32: row,
        i32wrapi64: row,
        i64eq: row,
        i64ne: row,
        i64lts: row,
        i64ltu: row,
        i64gts: row,
        i64gtu: row,
        i64les: row,
        i64leu: row,
        i64ges: row,
        i64geu: row,
        i64add: row,
        i64sub: row,
        i64mul: row,
        i64divs: row,
        i64divu: row,
        i64rems: row,
        i64remu: row,
        i64and: row,
        i64or: row,
        i64xor: row,
        i64shl: row,
        i64shrs: row,
        i64shru: row,
        i64rotl: row,
        i64rotr: row,
    }
}

fn uniform_host_table(row: RawMeasurement) -> HostFnMeasurements {
    HostFnMeasurements {
        caller: row,
        address: row,
        gas_left: row,
        balance: row,
        value_transferred: row,
        minimum_balance: row,
        tombstone_deposit: row,
        rent_allowance: row,
        block_number: row,
        now: row,
        weight_to_fee: row,
        gas: row,
        input: row,
        input_per_byte: row,
        return_: row,
        return_per_byte: row,
        terminate: row,
        terminate_per_code_byte: row,
        restore_to: row,
        restore_to_per_caller_code_byte: row,
        restore_to_per_tombstone_code_byte: row,
        restore_to_per_delta: row,
        random: row,
        deposit_event: row,
        deposit_event_per_topic: row,
        deposit_event_per_byte: row,
        set_rent_allowance: row,
        set_storage: row,
        set_storage_per_byte: row,
        clear_storage: row,
        get_storage: row,
        get_storage_per_byte: row,
        transfer: row,
        call: row,
        call_per_code_byte: row,
        call_transfer_surcharge: row,
        call_per_input_byte: row,
        call_per_output_byte: row,
        instantiate: row,
        instantiate_per_code_byte: row,
        instantiate_per_input_byte: row,
        instantiate_per_output_byte: row,
        instantiate_per_salt_byte: row,
        hash_sha2_256: row,
        hash_sha2_256_per_byte: row,
        hash_keccak_256: row,
        hash_keccak_256_per_byte: row,
        hash_blake2_256: row,
        hash_blake2_256_per_byte: row,
        hash_blake2_128: row,
        hash_blake2_128_per_byte: row,
        rent_params: row,
    }
}

#[test]
fn zero_measurement_table_derives_the_default_tables() {
    let zero_row = InstrMeasurement {
        raw: RawMeasurement { measured: 0, base: 0 },
        num_params: 2,
    };
    let weights = InstructionWeights::derive(&uniform_instr_table(zero_row));
    assert_eq!(weights, InstructionWeights::default());

    let host = HostFnWeights::derive(&uniform_host_table(RawMeasurement { measured: 0, base: 0 }));
    assert_eq!(host, HostFnWeights::default());
}

#[test]
fn derived_tables_follow_the_published_formulas() {
    // Every instruction measured at 5_000_000 with 2_000_000 overhead,
    // and one supporting push per repetition: 3_000 normalized, minus one
    // half share (1_500) of the push-constant weight.
    let row = InstrMeasurement {
        raw: RawMeasurement { measured: 5_000_000, base: 2_000_000 },
        num_params: 1,
    };
    let mut table = uniform_instr_table(row);
    table.i64add.num_params = 2;
    let weights = InstructionWeights::derive(&table);
    assert_eq!(weights.i64const, 1_500);
    assert_eq!(weights.i64load, 1_500);
    assert_eq!(weights.i64add, 0);

    // Host calls: flat rows are batch-normalized, per-byte rows are
    // further divided by 1024.
    let mut host_table = uniform_host_table(RawMeasurement { measured: 250_000, base: 50_000 });
    host_table.input_per_byte = RawMeasurement { measured: 4_146_000, base: 50_000 };
    let host = HostFnWeights::derive(&host_table);
    assert_eq!(host.caller, 2_000);
    assert_eq!(host.deposit_event_per_topic, 2_000);
    assert_eq!(host.input_per_byte, 40);
}
