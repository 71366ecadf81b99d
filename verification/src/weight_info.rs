//! A benchmark-weight table in which every operation is free.
//!
//! One entry per benchmarked operation: the dispatchables, the host
//! capabilities and the instruction benchmarks. Each entry reports the
//! measured weight of the whole benchmark run at the given repetition
//! counts; this table reports zero for all of them, which makes every
//! derived weight zero as well. It is the measurement source a chain uses
//! until a real benchmark run replaces it.

use crate::Weight;
use vstd::prelude::*;

verus! {

/// The all-zero measurement table.
pub struct RainyelWeight {}

impl RainyelWeight {

    pub fn on_initialize() -> (w: Weight)
        ensures
            w == 0,
    {
        0
    }

    pub fn on_initialize_per_trie_key(k: u32) -> (w: Weight)
        ensures
            w == 0,
    {
        0
    }

    pub fn on_initialize_per_queue_item(q: u32) -> (w: Weight)
        ensures
            w == 0,
    {
        0
    }

    pub fn instrument(c: u32) -> (w: Weight)
        ensures
            w == 0,
    {
        0
    }

    pub fn update_schedule() -> (w: Weight)
        ensures
            w == 0,
    {
        0
    }

    pub fn instantiate_with_code(c: u32, s: u32) -> (w: Weight)
        ensures
            w == 0,
    {
        0
    }

    pub fn instantiate(c: u32, s: u32) -> (w: Weight)
        ensures
            w == 0,
    {
        0
    }

    pub fn call(c: u32) -> (w: Weight)
        ensures
            w == 0,
    {
        0
    }

    pub fn claim_surcharge(c: u32) -> (w: Weight)
        ensures
            w == 0,
    {
        0
    }

    pub fn seal_caller(r: u32) -> (w: Weight)
        ensures
            w == 0,
    {
        0
    }

    pub fn seal_address(r: u32) -> (w: Weight)
        ensures
            w == 0,
    {
        0
    }

    pub fn seal_gas_left(r: u32) -> (w: Weight)
        ensures
            w == 0,
    {
        0
    }

    pub fn seal_balance(r: u32) -> (w: Weight)
        ensures
            w == 0,
    {
        0
    }

    pub fn seal_value_transferred(r: u32) -> (w: Weight)
        ensures
            w == 0,
    {
        0
    }

    pub fn seal_minimum_balance(r: u32) -> (w: Weight)
        ensures
            w == 0,
    {
        0
    }

    pub fn seal_tombstone_deposit(r: u32) -> (w: Weight)
        ensures
            w == 0,
    {
        0
    }

    pub fn seal_rent_allowance(r: u32) -> (w: Weight)
        ensures
            w == 0,
    {
        0
    }

    pub fn seal_block_number(r: u32) -> (w: Weight)
        ensures
            w == 0,
    {
        0
    }

    pub fn seal_now(r: u32) -> (w: Weight)
        ensures
            w == 0,
    {
        0
    }

    pub fn seal_rent_params(r: u32) -> (w: Weight)
        ensures
            w == 0,
    {
        0
    }

    pub fn seal_weight_to_fee(r: u32) -> (w: Weight)
        ensures
            w == 0,
    {
        0
    }

    pub fn seal_gas(r: u32) -> (w: Weight)
        ensures
            w == 0,
    {
        0
    }

    pub fn seal_input(r: u32) -> (w: Weight)
        ensures
            w == 0,
    {
        0
    }

    pub fn seal_input_per_kb(n: u32) -> (w: Weight)
        ensures
            w == 0,
    {
        0
    }

    pub fn seal_return(r: u32) -> (w: Weight)
        ensures
            w == 0,
    {
        0
    }

    pub fn seal_return_per_kb(n: u32) -> (w: Weight)
        ensures
            w == 0,
    {
        0
    }

    pub fn seal_terminate(r: u32) -> (w: Weight)
        ensures
            w == 0,
    {
        0
    }

    pub fn seal_terminate_per_code_kb(c: u32) -> (w: Weight)
        ensures
            w == 0,
    {
        0
    }

    pub fn seal_restore_to(r: u32) -> (w: Weight)
        ensures
            w == 0,
    {
        0
    }

    pub fn seal_restore_to_per_code_kb_delta(c: u32, t: u32, d: u32) -> (w: Weight)
        ensures
            w == 0,
    {
        0
    }

    pub fn seal_random(r: u32) -> (w: Weight)
        ensures
            w == 0,
    {
        0
    }

    pub fn seal_deposit_event(r: u32) -> (w: Weight)
        ensures
            w == 0,
    {
        0
    }

    pub fn seal_deposit_event_per_topic_and_kb(t: u32, n: u32) -> (w: Weight)
        ensures
            w == 0,
    {
        0
    }

    pub fn seal_set_rent_allowance(r: u32) -> (w: Weight)
        ensures
            w == 0,
    {
        0
    }

    pub fn seal_set_storage(r: u32) -> (w: Weight)
        ensures
            w == 0,
    {
        0
    }

    pub fn seal_set_storage_per_kb(n: u32) -> (w: Weight)
        ensures
            w == 0,
    {
        0
    }

    pub fn seal_clear_storage(r: u32) -> (w: Weight)
        ensures
            w == 0,
    {
        0
    }

    pub fn seal_get_storage(r: u32) -> (w: Weight)
        ensures
            w == 0,
    {
        0
    }

    pub fn seal_get_storage_per_kb(n: u32) -> (w: Weight)
        ensures
            w == 0,
    {
        0
    }

    pub fn seal_transfer(r: u32) -> (w: Weight)
        ensures
            w == 0,
    {
        0
    }

    pub fn seal_call(r: u32) -> (w: Weight)
        ensures
            w == 0,
    {
        0
    }

    pub fn seal_call_per_code_transfer_input_output_kb(c: u32, t: u32, i: u32, o: u32) -> (w: Weight)
        ensures
            w == 0,
    {
        0
    }

    pub fn seal_instantiate(r: u32) -> (w: Weight)
        ensures
            w == 0,
    {
        0
    }

    pub fn seal_instantiate_per_code_input_output_salt_kb(c: u32, i: u32, o: u32, s: u32) -> (w: Weight)
        ensures
            w == 0,
    {
        0
    }

    pub fn seal_hash_sha2_256(r: u32) -> (w: Weight)
        ensures
            w == 0,
    {
        0
    }

    pub fn seal_hash_sha2_256_per_kb(n: u32) -> (w: Weight)
        ensures
            w == 0,
    {
        0
    }

    pub fn seal_hash_keccak_256(r: u32) -> (w: Weight)
        ensures
            w == 0,
    {
        0
    }

    pub fn seal_hash_keccak_256_per_kb(n: u32) -> (w: Weight)
        ensures
            w == 0,
    {
        0
    }

    pub fn seal_hash_blake2_256(r: u32) -> (w: Weight)
        ensures
            w == 0,
    {
        0
    }

    pub fn seal_hash_blake2_256_per_kb(n: u32) -> (w: Weight)
        ensures
            w == 0,
    {
        0
    }

    pub fn seal_hash_blake2_128(r: u32) -> (w: Weight)
        ensures
            w == 0,
    {
        0
    }

    pub fn seal_hash_blake2_128_per_kb(n: u32) -> (w: Weight)
        ensures
            w == 0,
    {
        0
    }

    pub fn instr_i64const(r: u32) -> (w: Weight)
        ensures
            w == 0,
    {
        0
    }

    pub fn instr_i64load(r: u32) -> (w: Weight)
        ensures
            w == 0,
    {
        0
    }

    pub fn instr_i64store(r: u32) -> (w: Weight)
        ensures
            w == 0,
    {
        0
    }

    pub fn instr_select(r: u32) -> (w: Weight)
        ensures
            w == 0,
    {
        0
    }

    pub fn instr_if(r: u32) -> (w: Weight)
        ensures
            w == 0,
    {
        0
    }

    pub fn instr_br(r: u32) -> (w: Weight)
        ensures
            w == 0,
    {
        0
    }

    pub fn instr_br_if(r: u32) -> (w: Weight)
        ensures
            w == 0,
    {
        0
    }

    pub fn instr_br_table(r: u32) -> (w: Weight)
        ensures
            w == 0,
    {
        0
    }

    pub fn instr_br_table_per_entry(e: u32) -> (w: Weight)
        ensures
            w == 0,
    {
        0
    }

    pub fn instr_call(r: u32) -> (w: Weight)
        ensures
            w == 0,
    {
        0
    }

    pub fn instr_call_indirect(r: u32) -> (w: Weight)
        ensures
            w == 0,
    {
        0
    }

    pub fn instr_call_indirect_per_param(p: u32) -> (w: Weight)
        ensures
            w == 0,
    {
        0
    }

    pub fn instr_local_get(r: u32) -> (w: Weight)
        ensures
            w == 0,
    {
        0
    }

    pub fn instr_local_set(r: u32) -> (w: Weight)
        ensures
            w == 0,
    {
        0
    }

    pub fn instr_local_tee(r: u32) -> (w: Weight)
        ensures
            w == 0,
    {
        0
    }

    pub fn instr_global_get(r: u32) -> (w: Weight)
        ensures
            w == 0,
    {
        0
    }

    pub fn instr_global_set(r: u32) -> (w: Weight)
        ensures
            w == 0,
    {
        0
    }

    pub fn instr_memory_current(r: u32) -> (w: Weight)
        ensures
            w == 0,
    {
        0
    }

    pub fn instr_memory_grow(r: u32) -> (w: Weight)
        ensures
            w == 0,
    {
        0
    }

    pub fn instr_i64clz(r: u32) -> (w: Weight)
        ensures
            w == 0,
    {
        0
    }

    pub fn instr_i64ctz(r: u32) -> (w: Weight)
        ensures
            w == 0,
    {
        0
    }

    pub fn instr_i64popcnt(r: u32) -> (w: Weight)
        ensures
            w == 0,
    {
        0
    }

    pub fn instr_i64eqz(r: u32) -> (w: Weight)
        ensures
            w == 0,
    {
        0
    }

    pub fn instr_i64extendsi32(r: u32) -> (w: Weight)
        ensures
            w == 0,
    {
        0
    }

    pub fn instr_i64extendui32(r: u32) -> (w: Weight)
        ensures
            w == 0,
    {
        0
    }

    pub fn instr_i32wrapi64(r: u32) -> (w: Weight)
        ensures
            w == 0,
    {
        0
    }

    pub fn instr_i64eq(r: u32) -> (w: Weight)
        ensures
            w == 0,
    {
        0
    }

    pub fn instr_i64ne(r: u32) -> (w: Weight)
        ensures
            w == 0,
    {
        0
    }

    pub fn instr_i64lts(r: u32) -> (w: Weight)
        ensures
            w == 0,
    {
        0
    }

    pub fn instr_i64ltu(r: u32) -> (w: Weight)
        ensures
            w == 0,
    {
        0
    }

    pub fn instr_i64gts(r: u32) -> (w: Weight)
        ensures
            w == 0,
    {
        0
    }

    pub fn instr_i64gtu(r: u32) -> (w: Weight)
        ensures
            w == 0,
    {
        0
    }

    pub fn instr_i64les(r: u32) -> (w: Weight)
        ensures
            w == 0,
    {
        0
    }

    pub fn instr_i64leu(r: u32) -> (w: Weight)
        ensures
            w == 0,
    {
        0
    }

    pub fn instr_i64ges(r: u32) -> (w: Weight)
        ensures
            w == 0,
    {
        0
    }

    pub fn instr_i64geu(r: u32) -> (w: Weight)
        ensures
            w == 0,
    {
        0
    }

    pub fn instr_i64add(r: u32) -> (w: Weight)
        ensures
            w == 0,
    {
        0
    }

    pub fn instr_i64sub(r: u32) -> (w: Weight)
        ensures
            w == 0,
    {
        0
    }

    pub fn instr_i64mul(r: u32) -> (w: Weight)
        ensures
            w == 0,
    {
        0
    }

    pub fn instr_i64divs(r: u32) -> (w: Weight)
        ensures
            w == 0,
    {
        0
    }

    pub fn instr_i64divu(r: u32) -> (w: Weight)
        ensures
            w == 0,
    {
        0
    }

    pub fn instr_i64rems(r: u32) -> (w: Weight)
        ensures
            w == 0,
    {
        0
    }

    pub fn instr_i64remu(r: u32) -> (w: Weight)
        ensures
            w == 0,
    {
        0
    }

    pub fn instr_i64and(r: u32) -> (w: Weight)
        ensures
            w == 0,
    {
        0
    }

    pub fn instr_i64or(r: u32) -> (w: Weight)
        ensures
            w == 0,
    {
        0
    }

    pub fn instr_i64xor(r: u32) -> (w: Weight)
        ensures
            w == 0,
    {
        0
    }

    pub fn instr_i64shl(r: u32) -> (w: Weight)
        ensures
            w == 0,
    {
        0
    }

    pub fn instr_i64shrs(r: u32) -> (w: Weight)
        ensures
            w == 0,
    {
        0
    }

    pub fn instr_i64shru(r: u32) -> (w: Weight)
        ensures
            w == 0,
    {
        0
    }

    pub fn instr_i64rotl(r: u32) -> (w: Weight)
        ensures
            w == 0,
    {
        0
    }

    pub fn instr_i64rotr(r: u32) -> (w: Weight)
        ensures
            w == 0,
    {
        0
    }

}

} // verus!
