//! The persisted byte encoding of a schedule.
//!
//! A schedule is stored as the little-endian bytes of its fields, in
//! declaration order: the version, one byte for the diagnostics flag, the
//! eight 32-bit limits, the fifty-one 32-bit instruction weights, and the
//! fifty-two 64-bit host function weights. Decoding tolerates trailing
//! bytes, so fields appended by a later field set do not break reading a
//! value written under this one.

use crate::host_weights::HostFnWeights;
use crate::instr_weights::InstructionWeights;
use crate::limits::Limits;
use crate::schedule::Schedule;
use vstd::bytes::*;
use vstd::prelude::*;
use vstd::slice::slice_subrange;

verus! {

/// Total size in bytes of an encoded schedule.
pub const SCHEDULE_ENCODED_LEN: usize = 657;

/// The single byte a boolean is stored as.
pub open spec fn spec_bool_byte(b: bool) -> u8 {
    if b {
        1u8
    } else {
        0u8
    }
}

/// The 32-bit words of the limits, in field order.
pub open spec fn limits_words(l: Limits) -> Seq<u32> {
    seq![
        l.event_topics,
        l.stack_height,
        l.globals,
        l.parameters,
        l.memory_pages,
        l.table_size,
        l.br_table_size,
        l.subject_len,
    ]
}

/// The limits rebuilt from their eight 32-bit words.
pub open spec fn spec_limits_of_words(ws: Seq<u32>) -> Limits
    recommends
        ws.len() == 8,
{
    Limits {
        event_topics: ws[0],
        stack_height: ws[1],
        globals: ws[2],
        parameters: ws[3],
        memory_pages: ws[4],
        table_size: ws[5],
        br_table_size: ws[6],
        subject_len: ws[7],
    }
}

/// The 32-bit words of the instruction weights, in field order.
pub open spec fn instr_words(w: InstructionWeights) -> Seq<u32> {
    seq![
        w.i64const,
        w.i64load,
        w.i64store,
        w.select,
        w.if_,
        w.br,
        w.br_if,
        w.br_table,
        w.br_table_per_entry,
        w.call,
        w.call_indirect,
        w.call_indirect_per_param,
        w.local_get,
        w.local_set,
        w.local_tee,
        w.global_get,
        w.global_set,
        w.memory_current,
        w.memory_grow,
        w.i64clz,
        w.i64ctz,
        w.i64popcnt,
        w.i64eqz,
        w.i64extendsi32,
        w.i64extendui32,
        w.i32wrapi64,
        w.i64eq,
        w.i64ne,
        w.i64lts,
        w.i64ltu,
        w.i64gts,
        w.i64gtu,
        w.i64les,
        w.i64leu,
        w.i64ges,
        w.i64geu,
        w.i64add,
        w.i64sub,
        w.i64mul,
        w.i64divs,
        w.i64divu,
        w.i64rems,
        w.i64remu,
        w.i64and,
        w.i64or,
        w.i64xor,
        w.i64shl,
        w.i64shrs,
        w.i64shru,
        w.i64rotl,
        w.i64rotr,
    ]
}

/// The instruction weights rebuilt from their fifty-one 32-bit words.
pub open spec fn spec_instr_of_words(ws: Seq<u32>) -> InstructionWeights
    recommends
        ws.len() == 51,
{
    InstructionWeights {
        i64const: ws[0],
        i64load: ws[1],
        i64store: ws[2],
        select: ws[3],
        if_: ws[4],
        br: ws[5],
        br_if: ws[6],
        br_table: ws[7],
        br_table_per_entry: ws[8],
        call: ws[9],
        call_indirect: ws[10],
        call_indirect_per_param: ws[11],
        local_get: ws[12],
        local_set: ws[13],
        local_tee: ws[14],
        global_get: ws[15],
        global_set: ws[16],
        memory_current: ws[17],
        memory_grow: ws[18],
        i64clz: ws[19],
        i64ctz: ws[20],
        i64popcnt: ws[21],
        i64eqz: ws[22],
        i64extendsi32: ws[23],
        i64extendui32: ws[24],
        i32wrapi64: ws[25],
        i64eq: ws[26],
        i64ne: ws[27],
        i64lts: ws[28],
        i64ltu: ws[29],
        i64gts: ws[30],
        i64gtu: ws[31],
        i64les: ws[32],
        i64leu: ws[33],
        i64ges: ws[34],
        i64geu: ws[35],
        i64add: ws[36],
        i64sub: ws[37],
        i64mul: ws[38],
        i64divs: ws[39],
        i64divu: ws[40],
        i64rems: ws[41],
        i64remu: ws[42],
        i64and: ws[43],
        i64or: ws[44],
        i64xor: ws[45],
        i64shl: ws[46],
        i64shrs: ws[47],
        i64shru: ws[48],
        i64rotl: ws[49],
        i64rotr: ws[50],
    }
}

/// The 64-bit words of the host function weights, in field order.
pub open spec fn host_words(w: HostFnWeights) -> Seq<u64> {
    seq![
        w.caller,
        w.address,
        w.gas_left,
        w.balance,
        w.value_transferred,
        w.minimum_balance,
        w.tombstone_deposit,
        w.rent_allowance,
        w.block_number,
        w.now,
        w.weight_to_fee,
        w.gas,
        w.input,
        w.input_per_byte,
        w.return_,
        w.return_per_byte,
        w.terminate,
        w.terminate_per_code_byte,
        w.restore_to,
        w.restore_to_per_caller_code_byte,
        w.restore_to_per_tombstone_code_byte,
        w.restore_to_per_delta,
        w.random,
        w.deposit_event,
        w.deposit_event_per_topic,
        w.deposit_event_per_byte,
        w.set_rent_allowance,
        w.set_storage,
        w.set_storage_per_byte,
        w.clear_storage,
        w.get_storage,
        w.get_storage_per_byte,
        w.transfer,
        w.call,
        w.call_per_code_byte,
        w.call_transfer_surcharge,
        w.call_per_input_byte,
        w.call_per_output_byte,
        w.instantiate,
        w.instantiate_per_code_byte,
        w.instantiate_per_input_byte,
        w.instantiate_per_output_byte,
        w.instantiate_per_salt_byte,
        w.hash_sha2_256,
        w.hash_sha2_256_per_byte,
        w.hash_keccak_256,
        w.hash_keccak_256_per_byte,
        w.hash_blake2_256,
        w.hash_blake2_256_per_byte,
        w.hash_blake2_128,
        w.hash_blake2_128_per_byte,
        w.rent_params,
    ]
}

/// The host function weights rebuilt from their fifty-two 64-bit words.
pub open spec fn spec_host_of_words(ws: Seq<u64>) -> HostFnWeights
    recommends
        ws.len() == 52,
{
    HostFnWeights {
        caller: ws[0],
        address: ws[1],
        gas_left: ws[2],
        balance: ws[3],
        value_transferred: ws[4],
        minimum_balance: ws[5],
        tombstone_deposit: ws[6],
        rent_allowance: ws[7],
        block_number: ws[8],
        now: ws[9],
        weight_to_fee: ws[10],
        gas: ws[11],
        input: ws[12],
        input_per_byte: ws[13],
        return_: ws[14],
        return_per_byte: ws[15],
        terminate: ws[16],
        terminate_per_code_byte: ws[17],
        restore_to: ws[18],
        restore_to_per_caller_code_byte: ws[19],
        restore_to_per_tombstone_code_byte: ws[20],
        restore_to_per_delta: ws[21],
        random: ws[22],
        deposit_event: ws[23],
        deposit_event_per_topic: ws[24],
        deposit_event_per_byte: ws[25],
        set_rent_allowance: ws[26],
        set_storage: ws[27],
        set_storage_per_byte: ws[28],
        clear_storage: ws[29],
        get_storage: ws[30],
        get_storage_per_byte: ws[31],
        transfer: ws[32],
        call: ws[33],
        call_per_code_byte: ws[34],
        call_transfer_surcharge: ws[35],
        call_per_input_byte: ws[36],
        call_per_output_byte: ws[37],
        instantiate: ws[38],
        instantiate_per_code_byte: ws[39],
        instantiate_per_input_byte: ws[40],
        instantiate_per_output_byte: ws[41],
        instantiate_per_salt_byte: ws[42],
        hash_sha2_256: ws[43],
        hash_sha2_256_per_byte: ws[44],
        hash_keccak_256: ws[45],
        hash_keccak_256_per_byte: ws[46],
        hash_blake2_256: ws[47],
        hash_blake2_256_per_byte: ws[48],
        hash_blake2_128: ws[49],
        hash_blake2_128_per_byte: ws[50],
        rent_params: ws[51],
    }
}

/// The bytes of a list of 32-bit words, each little-endian.
pub open spec fn spec_encode_u32s(ws: Seq<u32>) -> Seq<u8>
    decreases ws.len(),
{
    if ws.len() == 0 {
        Seq::empty()
    } else {
        spec_encode_u32s(ws.drop_last()) + spec_u32_to_le_bytes(ws.last())
    }
}

/// The bytes of a list of 64-bit words, each little-endian.
pub open spec fn spec_encode_u64s(ws: Seq<u64>) -> Seq<u8>
    decreases ws.len(),
{
    if ws.len() == 0 {
        Seq::empty()
    } else {
        spec_encode_u64s(ws.drop_last()) + spec_u64_to_le_bytes(ws.last())
    }
}

/// The `n` 32-bit words read from `b` starting at `pos`.
pub open spec fn spec_read_u32s(b: Seq<u8>, pos: int, n: nat) -> Seq<u32> {
    Seq::new(n, |k: int| spec_u32_from_le_bytes(b.subrange(pos + 4 * k, pos + 4 * k + 4)))
}

/// The `n` 64-bit words read from `b` starting at `pos`.
pub open spec fn spec_read_u64s(b: Seq<u8>, pos: int, n: nat) -> Seq<u64> {
    Seq::new(n, |k: int| spec_u64_from_le_bytes(b.subrange(pos + 8 * k, pos + 8 * k + 8)))
}

/// The encoded schedule: every field in declaration order, little-endian.
pub open spec fn spec_encode_schedule(s: Schedule) -> Seq<u8> {
    spec_u32_to_le_bytes(s.version) + seq![spec_bool_byte(s.enable_println)] + spec_encode_u32s(
        limits_words(s.limits),
    ) + spec_encode_u32s(instr_words(s.instruction_weights)) + spec_encode_u64s(
        host_words(s.host_fn_weights),
    )
}

/// The schedule read back from its persisted bytes: `None` if the bytes
/// are too short or the diagnostics flag byte is not a boolean; trailing
/// bytes are ignored.
pub open spec fn spec_decode_schedule(b: Seq<u8>) -> Option<Schedule> {
    if b.len() < SCHEDULE_ENCODED_LEN {
        None
    } else if b[4] != 0 && b[4] != 1 {
        None
    } else {
        Some(
            Schedule {
                version: spec_u32_from_le_bytes(b.subrange(0, 4)),
                enable_println: b[4] == 1,
                limits: spec_limits_of_words(spec_read_u32s(b, 5, 8)),
                instruction_weights: spec_instr_of_words(spec_read_u32s(b, 37, 51)),
                host_fn_weights: spec_host_of_words(spec_read_u64s(b, 241, 52)),
            },
        )
    }
}

proof fn lemma_encode_u32s_len(ws: Seq<u32>)
    ensures
        spec_encode_u32s(ws).len() == 4 * ws.len(),
    decreases ws.len(),
{
    lemma_auto_spec_u32_to_from_le_bytes();
    if ws.len() > 0 {
        lemma_encode_u32s_len(ws.drop_last());
    }
}

proof fn lemma_encode_u64s_len(ws: Seq<u64>)
    ensures
        spec_encode_u64s(ws).len() == 8 * ws.len(),
    decreases ws.len(),
{
    lemma_auto_spec_u64_to_from_le_bytes();
    if ws.len() > 0 {
        lemma_encode_u64s_len(ws.drop_last());
    }
}

/// Reading words out of a byte string recovers exactly the words whose
/// encoding was written there.
proof fn lemma_read_encoded_u32s(b: Seq<u8>, pos: int, ws: Seq<u32>)
    requires
        0 <= pos,
        pos + 4 * ws.len() <= b.len(),
        b.subrange(pos, pos + 4 * ws.len()) == spec_encode_u32s(ws),
    ensures
        spec_read_u32s(b, pos, ws.len()) == ws,
    decreases ws.len(),
{
    lemma_auto_spec_u32_to_from_le_bytes();
    if ws.len() == 0 {
        assert(spec_read_u32s(b, pos, ws.len()) =~= ws);
    } else {
        let n = ws.len() as int;
        let head = ws.drop_last();
        lemma_encode_u32s_len(ws);
        lemma_encode_u32s_len(head);
        assert(b.subrange(pos, pos + 4 * (n - 1)) =~= spec_encode_u32s(head)) by {
            assert forall|i: int| 0 <= i < 4 * (n - 1) implies b.subrange(pos, pos + 4 * (n - 1))[i]
                == spec_encode_u32s(head)[i] by {
                assert(b.subrange(pos, pos + 4 * n)[i] == b[pos + i]);
            }
        }
        lemma_read_encoded_u32s(b, pos, head);
        assert(b.subrange(pos + 4 * (n - 1), pos + 4 * n) =~= spec_u32_to_le_bytes(ws.last())) by {
            assert forall|i: int| 0 <= i < 4 implies b.subrange(pos + 4 * (n - 1), pos + 4 * n)[i]
                == spec_u32_to_le_bytes(ws.last())[i] by {
                assert(b.subrange(pos, pos + 4 * n)[4 * (n - 1) + i] == b[pos + 4 * (n - 1) + i]);
            }
        }
        assert(spec_read_u32s(b, pos, ws.len()) =~= ws) by {
            assert forall|k: int| 0 <= k < n implies spec_read_u32s(b, pos, ws.len())[k]
                == ws[k] by {
                if k < n - 1 {
                    assert(spec_read_u32s(b, pos, head.len())[k] == head[k]);
                } else {
                    assert(spec_u32_from_le_bytes(b.subrange(pos + 4 * (n - 1), pos + 4 * n))
                        == ws.last());
                }
            }
        }
    }
}

/// Reading 64-bit words out of a byte string recovers exactly the words
/// whose encoding was written there.
proof fn lemma_read_encoded_u64s(b: Seq<u8>, pos: int, ws: Seq<u64>)
    requires
        0 <= pos,
        pos + 8 * ws.len() <= b.len(),
        b.subrange(pos, pos + 8 * ws.len()) == spec_encode_u64s(ws),
    ensures
        spec_read_u64s(b, pos, ws.len()) == ws,
    decreases ws.len(),
{
    lemma_auto_spec_u64_to_from_le_bytes();
    if ws.len() == 0 {
        assert(spec_read_u64s(b, pos, ws.len()) =~= ws);
    } else {
        let n = ws.len() as int;
        let head = ws.drop_last();
        lemma_encode_u64s_len(ws);
        lemma_encode_u64s_len(head);
        assert(b.subrange(pos, pos + 8 * (n - 1)) =~= spec_encode_u64s(head)) by {
            assert forall|i: int| 0 <= i < 8 * (n - 1) implies b.subrange(pos, pos + 8 * (n - 1))[i]
                == spec_encode_u64s(head)[i] by {
                assert(b.subrange(pos, pos + 8 * n)[i] == b[pos + i]);
            }
        }
        lemma_read_encoded_u64s(b, pos, head);
        assert(b.subrange(pos + 8 * (n - 1), pos + 8 * n) =~= spec_u64_to_le_bytes(ws.last())) by {
            assert forall|i: int| 0 <= i < 8 implies b.subrange(pos + 8 * (n - 1), pos + 8 * n)[i]
                == spec_u64_to_le_bytes(ws.last())[i] by {
                assert(b.subrange(pos, pos + 8 * n)[8 * (n - 1) + i] == b[pos + 8 * (n - 1) + i]);
            }
        }
        assert(spec_read_u64s(b, pos, ws.len()) =~= ws) by {
            assert forall|k: int| 0 <= k < n implies spec_read_u64s(b, pos, ws.len())[k]
                == ws[k] by {
                if k < n - 1 {
                    assert(spec_read_u64s(b, pos, head.len())[k] == head[k]);
                } else {
                    assert(spec_u64_from_le_bytes(b.subrange(pos + 8 * (n - 1), pos + 8 * n))
                        == ws.last());
                }
            }
        }
    }
}

fn push_u32(out: &mut Vec<u8>, x: u32)
    ensures
        final(out)@ == old(out)@ + spec_u32_to_le_bytes(x),
{
    let mut b = u32_to_le_bytes(x);
    out.append(&mut b);
}

fn push_u64(out: &mut Vec<u8>, x: u64)
    ensures
        final(out)@ == old(out)@ + spec_u64_to_le_bytes(x),
{
    let mut b = u64_to_le_bytes(x);
    out.append(&mut b);
}

fn encode_u32s(out: &mut Vec<u8>, ws: &Vec<u32>)
    ensures
        final(out)@ == old(out)@ + spec_encode_u32s(ws@),
{
    let mut i: usize = 0;
    while i < ws.len()
        invariant
            i <= ws@.len(),
            out@ == old(out)@ + spec_encode_u32s(ws@.subrange(0, i as int)),
        decreases ws@.len() - i,
    {
        push_u32(out, ws[i]);
        proof {
            let upto = ws@.subrange(0, i + 1 as int);
            assert(upto.drop_last() =~= ws@.subrange(0, i as int));
            assert(out@ =~= old(out)@ + spec_encode_u32s(upto));
        }
        i = i + 1;
    }
    proof {
        assert(ws@.subrange(0, ws@.len() as int) =~= ws@);
    }
}

fn encode_u64s(out: &mut Vec<u8>, ws: &Vec<u64>)
    ensures
        final(out)@ == old(out)@ + spec_encode_u64s(ws@),
{
    let mut i: usize = 0;
    while i < ws.len()
        invariant
            i <= ws@.len(),
            out@ == old(out)@ + spec_encode_u64s(ws@.subrange(0, i as int)),
        decreases ws@.len() - i,
    {
        push_u64(out, ws[i]);
        proof {
            let upto = ws@.subrange(0, i + 1 as int);
            assert(upto.drop_last() =~= ws@.subrange(0, i as int));
            assert(out@ =~= old(out)@ + spec_encode_u64s(upto));
        }
        i = i + 1;
    }
    proof {
        assert(ws@.subrange(0, ws@.len() as int) =~= ws@);
    }
}

fn read_u32(b: &[u8], pos: usize) -> (r: u32)
    requires
        pos + 4 <= b@.len(),
    ensures
        r == spec_u32_from_le_bytes(b@.subrange(pos as int, pos as int + 4)),
{
    let blen: usize = b.len();
    proof {
        assert(pos + 4 <= blen);
    }
    u32_from_le_bytes(slice_subrange(b, pos, pos + 4))
}

fn read_u64(b: &[u8], pos: usize) -> (r: u64)
    requires
        pos + 8 <= b@.len(),
    ensures
        r == spec_u64_from_le_bytes(b@.subrange(pos as int, pos as int + 8)),
{
    let blen: usize = b.len();
    proof {
        assert(pos + 8 <= blen);
    }
    u64_from_le_bytes(slice_subrange(b, pos, pos + 8))
}

fn read_u32s(b: &[u8], pos: usize, n: usize) -> (r: Vec<u32>)
    requires
        pos + 4 * (n as int) <= b@.len(),
    ensures
        r@ == spec_read_u32s(b@, pos as int, n as nat),
{
    let blen: usize = b.len();
    let mut r: Vec<u32> = Vec::new();
    let mut i: usize = 0;
    while i < n
        invariant
            i <= n,
            pos + 4 * (n as int) <= b@.len(),
            b@.len() == blen,
            r@ == spec_read_u32s(b@, pos as int, i as nat),
        decreases n - i,
    {
        let w = read_u32(b, pos + 4 * i);
        r.push(w);
        proof {
            assert(r@ =~= spec_read_u32s(b@, pos as int, (i + 1) as nat));
        }
        i = i + 1;
    }
    r
}

fn read_u64s(b: &[u8], pos: usize, n: usize) -> (r: Vec<u64>)
    requires
        pos + 8 * (n as int) <= b@.len(),
    ensures
        r@ == spec_read_u64s(b@, pos as int, n as nat),
{
    let blen: usize = b.len();
    let mut r: Vec<u64> = Vec::new();
    let mut i: usize = 0;
    while i < n
        invariant
            i <= n,
            pos + 8 * (n as int) <= b@.len(),
            b@.len() == blen,
            r@ == spec_read_u64s(b@, pos as int, i as nat),
        decreases n - i,
    {
        let w = read_u64(b, pos + 8 * i);
        r.push(w);
        proof {
            assert(r@ =~= spec_read_u64s(b@, pos as int, (i + 1) as nat));
        }
        i = i + 1;
    }
    r
}

fn limits_to_words(l: &Limits) -> (r: Vec<u32>)
    ensures
        r@ == limits_words(*l),
{
    let mut r: Vec<u32> = Vec::new();
    r.push(l.event_topics);
    r.push(l.stack_height);
    r.push(l.globals);
    r.push(l.parameters);
    r.push(l.memory_pages);
    r.push(l.table_size);
    r.push(l.br_table_size);
    r.push(l.subject_len);
    proof {
        assert(r@ =~= limits_words(*l));
    }
    r
}

fn limits_from_words(ws: &Vec<u32>) -> (r: Limits)
    requires
        ws@.len() == 8,
    ensures
        r == spec_limits_of_words(ws@),
{
    Limits {
        event_topics: ws[0],
        stack_height: ws[1],
        globals: ws[2],
        parameters: ws[3],
        memory_pages: ws[4],
        table_size: ws[5],
        br_table_size: ws[6],
        subject_len: ws[7],
    }
}

#[verifier::rlimit(100)]
fn instr_to_words(w: &InstructionWeights) -> (r: Vec<u32>)
    ensures
        r@ == instr_words(*w),
{
    let mut r: Vec<u32> = Vec::new();
    r.push(w.i64const);
    r.push(w.i64load);
    r.push(w.i64store);
    r.push(w.select);
    r.push(w.if_);
    r.push(w.br);
    r.push(w.br_if);
    r.push(w.br_table);
    r.push(w.br_table_per_entry);
    r.push(w.call);
    r.push(w.call_indirect);
    r.push(w.call_indirect_per_param);
    r.push(w.local_get);
    r.push(w.local_set);
    r.push(w.local_tee);
    r.push(w.global_get);
    r.push(w.global_set);
    r.push(w.memory_current);
    r.push(w.memory_grow);
    r.push(w.i64clz);
    r.push(w.i64ctz);
    r.push(w.i64popcnt);
    r.push(w.i64eqz);
    r.push(w.i64extendsi32);
    r.push(w.i64extendui32);
    r.push(w.i32wrapi64);
    r.push(w.i64eq);
    r.push(w.i64ne);
    r.push(w.i64lts);
    r.push(w.i64ltu);
    r.push(w.i64gts);
    r.push(w.i64gtu);
    r.push(w.i64les);
    r.push(w.i64leu);
    r.push(w.i64ges);
    r.push(w.i64geu);
    r.push(w.i64add);
    r.push(w.i64sub);
    r.push(w.i64mul);
    r.push(w.i64divs);
    r.push(w.i64divu);
    r.push(w.i64rems);
    r.push(w.i64remu);
    r.push(w.i64and);
    r.push(w.i64or);
    r.push(w.i64xor);
    r.push(w.i64shl);
    r.push(w.i64shrs);
    r.push(w.i64shru);
    r.push(w.i64rotl);
    r.push(w.i64rotr);
    proof {
        assert(r@ =~= instr_words(*w));
    }
    r
}

fn instr_from_words(ws: &Vec<u32>) -> (r: InstructionWeights)
    requires
        ws@.len() == 51,
    ensures
        r == spec_instr_of_words(ws@),
{
    InstructionWeights {
        i64const: ws[0],
        i64load: ws[1],
        i64store: ws[2],
        select: ws[3],
        if_: ws[4],
        br: ws[5],
        br_if: ws[6],
        br_table: ws[7],
        br_table_per_entry: ws[8],
        call: ws[9],
        call_indirect: ws[10],
        call_indirect_per_param: ws[11],
        local_get: ws[12],
        local_set: ws[13],
        local_tee: ws[14],
        global_get: ws[15],
        global_set: ws[16],
        memory_current: ws[17],
        memory_grow: ws[18],
        i64clz: ws[19],
        i64ctz: ws[20],
        i64popcnt: ws[21],
        i64eqz: ws[22],
        i64extendsi32: ws[23],
        i64extendui32: ws[24],
        i32wrapi64: ws[25],
        i64eq: ws[26],
        i64ne: ws[27],
        i64lts: ws[28],
        i64ltu: ws[29],
        i64gts: ws[30],
        i64gtu: ws[31],
        i64les: ws[32],
        i64leu: ws[33],
        i64ges: ws[34],
        i64geu: ws[35],
        i64add: ws[36],
        i64sub: ws[37],
        i64mul: ws[38],
        i64divs: ws[39],
        i64divu: ws[40],
        i64rems: ws[41],
        i64remu: ws[42],
        i64and: ws[43],
        i64or: ws[44],
        i64xor: ws[45],
        i64shl: ws[46],
        i64shrs: ws[47],
        i64shru: ws[48],
        i64rotl: ws[49],
        i64rotr: ws[50],
    }
}

#[verifier::rlimit(100)]
fn host_to_words(w: &HostFnWeights) -> (r: Vec<u64>)
    ensures
        r@ == host_words(*w),
{
    let mut r: Vec<u64> = Vec::new();
    r.push(w.caller);
    r.push(w.address);
    r.push(w.gas_left);
    r.push(w.balance);
    r.push(w.value_transferred);
    r.push(w.minimum_balance);
    r.push(w.tombstone_deposit);
    r.push(w.rent_allowance);
    r.push(w.block_number);
    r.push(w.now);
    r.push(w.weight_to_fee);
    r.push(w.gas);
    r.push(w.input);
    r.push(w.input_per_byte);
    r.push(w.return_);
    r.push(w.return_per_byte);
    r.push(w.terminate);
    r.push(w.terminate_per_code_byte);
    r.push(w.restore_to);
    r.push(w.restore_to_per_caller_code_byte);
    r.push(w.restore_to_per_tombstone_code_byte);
    r.push(w.restore_to_per_delta);
    r.push(w.random);
    r.push(w.deposit_event);
    r.push(w.deposit_event_per_topic);
    r.push(w.deposit_event_per_byte);
    r.push(w.set_rent_allowance);
    r.push(w.set_storage);
    r.push(w.set_storage_per_byte);
    r.push(w.clear_storage);
    r.push(w.get_storage);
    r.push(w.get_storage_per_byte);
    r.push(w.transfer);
    r.push(w.call);
    r.push(w.call_per_code_byte);
    r.push(w.call_transfer_surcharge);
    r.push(w.call_per_input_byte);
    r.push(w.call_per_output_byte);
    r.push(w.instantiate);
    r.push(w.instantiate_per_code_byte);
    r.push(w.instantiate_per_input_byte);
    r.push(w.instantiate_per_output_byte);
    r.push(w.instantiate_per_salt_byte);
    r.push(w.hash_sha2_256);
    r.push(w.hash_sha2_256_per_byte);
    r.push(w.hash_keccak_256);
    r.push(w.hash_keccak_256_per_byte);
    r.push(w.hash_blake2_256);
    r.push(w.hash_blake2_256_per_byte);
    r.push(w.hash_blake2_128);
    r.push(w.hash_blake2_128_per_byte);
    r.push(w.rent_params);
    proof {
        assert(r@ =~= host_words(*w));
    }
    r
}

fn host_from_words(ws: &Vec<u64>) -> (r: HostFnWeights)
    requires
        ws@.len() == 52,
    ensures
        r == spec_host_of_words(ws@),
{
    HostFnWeights {
        caller: ws[0],
        address: ws[1],
        gas_left: ws[2],
        balance: ws[3],
        value_transferred: ws[4],
        minimum_balance: ws[5],
        tombstone_deposit: ws[6],
        rent_allowance: ws[7],
        block_number: ws[8],
        now: ws[9],
        weight_to_fee: ws[10],
        gas: ws[11],
        input: ws[12],
        input_per_byte: ws[13],
        return_: ws[14],
        return_per_byte: ws[15],
        terminate: ws[16],
        terminate_per_code_byte: ws[17],
        restore_to: ws[18],
        restore_to_per_caller_code_byte: ws[19],
        restore_to_per_tombstone_code_byte: ws[20],
        restore_to_per_delta: ws[21],
        random: ws[22],
        deposit_event: ws[23],
        deposit_event_per_topic: ws[24],
        deposit_event_per_byte: ws[25],
        set_rent_allowance: ws[26],
        set_storage: ws[27],
        set_storage_per_byte: ws[28],
        clear_storage: ws[29],
        get_storage: ws[30],
        get_storage_per_byte: ws[31],
        transfer: ws[32],
        call: ws[33],
        call_per_code_byte: ws[34],
        call_transfer_surcharge: ws[35],
        call_per_input_byte: ws[36],
        call_per_output_byte: ws[37],
        instantiate: ws[38],
        instantiate_per_code_byte: ws[39],
        instantiate_per_input_byte: ws[40],
        instantiate_per_output_byte: ws[41],
        instantiate_per_salt_byte: ws[42],
        hash_sha2_256: ws[43],
        hash_sha2_256_per_byte: ws[44],
        hash_keccak_256: ws[45],
        hash_keccak_256_per_byte: ws[46],
        hash_blake2_256: ws[47],
        hash_blake2_256_per_byte: ws[48],
        hash_blake2_128: ws[49],
        hash_blake2_128_per_byte: ws[50],
        rent_params: ws[51],
    }
}

/// Encode a schedule into the bytes it is persisted as.
pub fn encode_schedule(s: &Schedule) -> (r: Vec<u8>)
    ensures
        r@ == spec_encode_schedule(*s),
        r@.len() == SCHEDULE_ENCODED_LEN,
{
    proof {
        lemma_encode_u32s_len(limits_words(s.limits));
        lemma_encode_u32s_len(instr_words(s.instruction_weights));
        lemma_encode_u64s_len(host_words(s.host_fn_weights));
        lemma_auto_spec_u32_to_from_le_bytes();
    }
    let mut out: Vec<u8> = Vec::new();
    push_u32(&mut out, s.version);
    out.push(if s.enable_println {
        1u8
    } else {
        0u8
    });
    let lw = limits_to_words(&s.limits);
    encode_u32s(&mut out, &lw);
    let iw = instr_to_words(&s.instruction_weights);
    encode_u32s(&mut out, &iw);
    let hw = host_to_words(&s.host_fn_weights);
    encode_u64s(&mut out, &hw);
    proof {
        assert(out@ =~= spec_encode_schedule(*s));
    }
    out
}

/// Decode a schedule from its persisted bytes. Returns `None` when the
/// bytes are too short or the diagnostics flag byte is not a boolean;
/// trailing bytes are ignored so that values written under an extended
/// field set still decode.
pub fn decode_schedule(b: &[u8]) -> (r: Option<Schedule>)
    ensures
        r == spec_decode_schedule(b@),
{
    if b.len() < SCHEDULE_ENCODED_LEN {
        return None;
    }
    let flag: u8 = b[4];
    if flag > 1 {
        return None;
    }
    let version = read_u32(b, 0);
    let lw = read_u32s(b, 5, 8);
    let limits = limits_from_words(&lw);
    let iw = read_u32s(b, 37, 51);
    let instruction_weights = instr_from_words(&iw);
    let hw = read_u64s(b, 241, 52);
    let host_fn_weights = host_from_words(&hw);
    Some(
        Schedule {
            version,
            enable_println: flag == 1,
            limits,
            instruction_weights,
            host_fn_weights,
        },
    )
}

/// Round trip: decoding the persisted bytes of any schedule yields a
/// schedule equal in all fields to the original.
pub proof fn lemma_schedule_encoding_round_trip(s: Schedule)
    ensures
        spec_decode_schedule(spec_encode_schedule(s)) == Some(s),
{
    let b = spec_encode_schedule(s);
    let vb = spec_u32_to_le_bytes(s.version);
    let fb = seq![spec_bool_byte(s.enable_println)];
    let lwords = limits_words(s.limits);
    let iwords = instr_words(s.instruction_weights);
    let hwords = host_words(s.host_fn_weights);
    let lb = spec_encode_u32s(lwords);
    let ib = spec_encode_u32s(iwords);
    let hb = spec_encode_u64s(hwords);
    lemma_auto_spec_u32_to_from_le_bytes();
    lemma_encode_u32s_len(lwords);
    lemma_encode_u32s_len(iwords);
    lemma_encode_u64s_len(hwords);
    assert(b.len() == 657);
    assert(b.subrange(0, 4) =~= vb);
    assert(spec_u32_from_le_bytes(b.subrange(0, 4)) == s.version);
    assert(b[4] == spec_bool_byte(s.enable_println));
    assert(b.subrange(5, 37) =~= lb);
    lemma_read_encoded_u32s(b, 5, lwords);
    assert(b.subrange(37, 241) =~= ib);
    lemma_read_encoded_u32s(b, 37, iwords);
    assert(b.subrange(241, 657) =~= hb);
    lemma_read_encoded_u64s(b, 241, hwords);
    assert(spec_limits_of_words(lwords) == s.limits);
    assert(spec_instr_of_words(iwords) == s.instruction_weights);
    assert(spec_host_of_words(hwords) == s.host_fn_weights);
}

} // verus!
