//! Persisted encoding: round trip, rejection of malformed bytes, and a
//! byte-for-byte comparison with the reference codec's primitive encoding.

use contract_schedule::encoding::{decode_schedule, encode_schedule, SCHEDULE_ENCODED_LEN};
use contract_schedule::host_weights::HostFnWeights;
use contract_schedule::instr_weights::InstructionWeights;
use contract_schedule::limits::Limits;
use contract_schedule::schedule::Schedule;
use parity_scale_codec::Encode;

fn sample_schedule() -> Schedule {
    Schedule {
        version: 7,
        enable_println: true,
        limits: Limits {
            event_topics: 101,
            stack_height: 102,
            globals: 103,
            parameters: 104,
            memory_pages: 105,
            table_size: 106,
            br_table_size: 107,
            subject_len: 108,
        },
        instruction_weights: InstructionWeights {
            i64const: 201,
            i64load: 202,
            i64store: 203,
            select: 204,
            if_: 205,
            br: 206,
            br_if: 207,
            br_table: 208,
            br_table_per_entry: 209,
            call: 210,
            call_indirect: 211,
            call_indirect_per_param: 212,
            local_get: 213,
            local_set: 214,
            local_tee: 215,
            global_get: 216,
            global_set: 217,
            memory_current: 218,
            memory_grow: 219,
            i64clz: 220,
            i64ctz: 221,
            i64popcnt: 222,
            i64eqz: 223,
            i64extendsi32: 224,
            i64extendui32: 225,
            i32wrapi64: 226,
            i64eq: 227,
            i64ne: 228,
            i64lts: 229,
            i64ltu: 230,
            i64gts: 231,
            i64gtu: 232,
            i64les: 233,
            i64leu: 234,
            i64ges: 235,
            i64geu: 236,
            i64add: 237,
            i64sub: 238,
            i64mul: 239,
            i64divs: 240,
            i64divu: 241,
            i64rems: 242,
            i64remu: 243,
            i64and: 244,
            i64or: 245,
            i64xor: 246,
            i64shl: 247,
            i64shrs: 248,
            i64shru: 249,
            i64rotl: 250,
            i64rotr: 251,
        },
        host_fn_weights: HostFnWeights {
            caller: 10000000001,
            address: 10000000002,
            gas_left: 10000000003,
            balance: 10000000004,
            value_transferred: 10000000005,
            minimum_balance: 10000000006,
            tombstone_deposit: 10000000007,
            rent_allowance: 10000000008,
            block_number: 10000000009,
            now: 10000000010,
            weight_to_fee: 10000000011,
            gas: 10000000012,
            input: 10000000013,
            input_per_byte: 10000000014,
            return_: 10000000015,
            return_per_byte: 10000000016,
            terminate: 10000000017,
            terminate_per_code_byte: 10000000018,
            restore_to: 10000000019,
            restore_to_per_caller_code_byte: 10000000020,
            restore_to_per_tombstone_code_byte: 10000000021,
            restore_to_per_delta: 10000000022,
            random: 10000000023,
            deposit_event: 10000000024,
            deposit_event_per_topic: 10000000025,
            deposit_event_per_byte: 10000000026,
            set_rent_allowance: 10000000027,
            set_storage: 10000000028,
            set_storage_per_byte: 10000000029,
            clear_storage: 10000000030,
            get_storage: 10000000031,
            get_storage_per_byte: 10000000032,
            transfer: 10000000033,
            call: 10000000034,
            call_per_code_byte: 10000000035,
            call_transfer_surcharge: 10000000036,
            call_per_input_byte: 10000000037,
            call_per_output_byte: 10000000038,
            instantiate: 10000000039,
            instantiate_per_code_byte: 10000000040,
            instantiate_per_input_byte: 10000000041,
            instantiate_per_output_byte: 10000000042,
            instantiate_per_salt_byte: 10000000043,
            hash_sha2_256: 10000000044,
            hash_sha2_256_per_byte: 10000000045,
            hash_keccak_256: 10000000046,
            hash_keccak_256_per_byte: 10000000047,
            hash_blake2_256: 10000000048,
            hash_blake2_256_per_byte: 10000000049,
            hash_blake2_128: 10000000050,
            hash_blake2_128_per_byte: 10000000051,
            rent_params: 10000000052,
        },
    }
}

#[test]
fn encoded_len_is_fixed() {
    let bytes = encode_schedule(&Schedule::default());
    assert_eq!(bytes.len(), SCHEDULE_ENCODED_LEN);
    let bytes = encode_schedule(&sample_schedule());
    assert_eq!(bytes.len(), SCHEDULE_ENCODED_LEN);
}

#[test]
fn round_trip_default_schedule() {
    let original = Schedule::default();
    let bytes = encode_schedule(&original);
    assert_eq!(decode_schedule(&bytes), Some(original));
}

#[test]
fn round_trip_sample_schedule() {
    let original = sample_schedule();
    let bytes = encode_schedule(&original);
    assert_eq!(decode_schedule(&bytes), Some(original));
}

#[test]
fn truncated_bytes_are_rejected() {
    let bytes = encode_schedule(&sample_schedule());
    assert_eq!(decode_schedule(&bytes[..bytes.len() - 1]), None);
    assert_eq!(decode_schedule(&[]), None);
}

#[test]
fn bad_flag_byte_is_rejected() {
    let mut bytes = encode_schedule(&sample_schedule());
    bytes[4] = 2;
    assert_eq!(decode_schedule(&bytes), None);
}

#[test]
fn trailing_bytes_are_ignored() {
    let original = sample_schedule();
    let mut bytes = encode_schedule(&original);
    bytes.push(0xAB);
    bytes.push(0xCD);
    assert_eq!(decode_schedule(&bytes), Some(original));
}

#[test]
fn encoding_matches_reference_codec() {
    let s = sample_schedule();
    let mut expected: Vec<u8> = Vec::new();
    expected.extend(s.version.encode());
    expected.extend(s.enable_println.encode());
    let limit_words: [u32; 8] = [
        s.limits.event_topics,
        s.limits.stack_height,
        s.limits.globals,
        s.limits.parameters,
        s.limits.memory_pages,
        s.limits.table_size,
        s.limits.br_table_size,
        s.limits.subject_len,
    ];
    for w in limit_words {
        expected.extend(w.encode());
    }
    let instr_words: [u32; 51] = [
        s.instruction_weights.i64const,
        s.instruction_weights.i64load,
        s.instruction_weights.i64store,
        s.instruction_weights.select,
        s.instruction_weights.if_,
        s.instruction_weights.br,
        s.instruction_weights.br_if,
        s.instruction_weights.br_table,
        s.instruction_weights.br_table_per_entry,
        s.instruction_weights.call,
        s.instruction_weights.call_indirect,
        s.instruction_weights.call_indirect_per_param,
        s.instruction_weights.local_get,
        s.instruction_weights.local_set,
        s.instruction_weights.local_tee,
        s.instruction_weights.global_get,
        s.instruction_weights.global_set,
        s.instruction_weights.memory_current,
        s.instruction_weights.memory_grow,
        s.instruction_weights.i64clz,
        s.instruction_weights.i64ctz,
        s.instruction_weights.i64popcnt,
        s.instruction_weights.i64eqz,
        s.instruction_weights.i64extendsi32,
        s.instruction_weights.i64extendui32,
        s.instruction_weights.i32wrapi64,
        s.instruction_weights.i64eq,
        s.instruction_weights.i64ne,
        s.instruction_weights.i64lts,
        s.instruction_weights.i64ltu,
        s.instruction_weights.i64gts,
        s.instruction_weights.i64gtu,
        s.instruction_weights.i64les,
        s.instruction_weights.i64leu,
        s.instruction_weights.i64ges,
        s.instruction_weights.i64geu,
        s.instruction_weights.i64add,
        s.instruction_weights.i64sub,
        s.instruction_weights.i64mul,
        s.instruction_weights.i64divs,
        s.instruction_weights.i64divu,
        s.instruction_weights.i64rems,
        s.instruction_weights.i64remu,
        s.instruction_weights.i64and,
        s.instruction_weights.i64or,
        s.instruction_weights.i64xor,
        s.instruction_weights.i64shl,
        s.instruction_weights.i64shrs,
        s.instruction_weights.i64shru,
        s.instruction_weights.i64rotl,
        s.instruction_weights.i64rotr,
    ];
    for w in instr_words {
        expected.extend(w.encode());
    }
    let host_words: [u64; 52] = [
        s.host_fn_weights.caller,
        s.host_fn_weights.address,
        s.host_fn_weights.gas_left,
        s.host_fn_weights.balance,
        s.host_fn_weights.value_transferred,
        s.host_fn_weights.minimum_balance,
        s.host_fn_weights.tombstone_deposit,
        s.host_fn_weights.rent_allowance,
        s.host_fn_weights.block_number,
        s.host_fn_weights.now,
        s.host_fn_weights.weight_to_fee,
        s.host_fn_weights.gas,
        s.host_fn_weights.input,
        s.host_fn_weights.input_per_byte,
        s.host_fn_weights.return_,
        s.host_fn_weights.return_per_byte,
        s.host_fn_weights.terminate,
        s.host_fn_weights.terminate_per_code_byte,
        s.host_fn_weights.restore_to,
        s.host_fn_weights.restore_to_per_caller_code_byte,
        s.host_fn_weights.restore_to_per_tombstone_code_byte,
        s.host_fn_weights.restore_to_per_delta,
        s.host_fn_weights.random,
        s.host_fn_weights.deposit_event,
        s.host_fn_weights.deposit_event_per_topic,
        s.host_fn_weights.deposit_event_per_byte,
        s.host_fn_weights.set_rent_allowance,
        s.host_fn_weights.set_storage,
        s.host_fn_weights.set_storage_per_byte,
        s.host_fn_weights.clear_storage,
        s.host_fn_weights.get_storage,
        s.host_fn_weights.get_storage_per_byte,
        s.host_fn_weights.transfer,
        s.host_fn_weights.call,
        s.host_fn_weights.call_per_code_byte,
        s.host_fn_weights.call_transfer_surcharge,
        s.host_fn_weights.call_per_input_byte,
        s.host_fn_weights.call_per_output_byte,
        s.host_fn_weights.instantiate,
        s.host_fn_weights.instantiate_per_code_byte,
        s.host_fn_weights.instantiate_per_input_byte,
        s.host_fn_weights.instantiate_per_output_byte,
        s.host_fn_weights.instantiate_per_salt_byte,
        s.host_fn_weights.hash_sha2_256,
        s.host_fn_weights.hash_sha2_256_per_byte,
        s.host_fn_weights.hash_keccak_256,
        s.host_fn_weights.hash_keccak_256_per_byte,
        s.host_fn_weights.hash_blake2_256,
        s.host_fn_weights.hash_blake2_256_per_byte,
        s.host_fn_weights.hash_blake2_128,
        s.host_fn_weights.hash_blake2_128_per_byte,
        s.host_fn_weights.rent_params,
    ];
    for w in host_words {
        expected.extend(w.encode());
    }
    assert_eq!(encode_schedule(&s), expected);
}
