//! Weights for all categories of supported wasm instructions.

use vstd::prelude::*;

verus! {

/// Describes the weight for all categories of supported wasm instructions.
///
/// There is one field for each wasm instruction that describes the weight to
/// execute one instruction of that name. There are a few exceptions:
///
/// 1. If there is an i64 and an i32 variant of an instruction the weight of
///    the former stands for both.
/// 2. The following instructions are free of charge because they merely
///    structure the wasm module and cannot be spammed without making the
///    module invalid (and rejected): End, Unreachable, Return, Else.
/// 3. The following instructions cannot be benchmarked because they are
///    removed by any real world execution engine as a preprocessing step and
///    therefore don't yield a meaningful benchmark result. However, in
///    contrast to the instructions mentioned in 2. they can be spammed. They
///    are priced with the same weight as the "default" instruction
///    (i64.const): Block, Loop, Nop.
/// 4. Both i64.const and drop are priced as `i64const / 2`. The reason is
///    that neither can be benchmarked on its own, but their individual
///    values are needed to derive (by subtraction) the weight of all other
///    instructions that use them as supporting instructions. Supporting
///    means mainly pushing arguments and dropping return values in order to
///    maintain a valid module.
#[derive(Clone, Copy, PartialEq, Eq, Structural, Debug)]
pub struct InstructionWeights {
    pub i64const: u32,
    pub i64load: u32,
    pub i64store: u32,
    pub select: u32,
    pub if_: u32,
    pub br: u32,
    pub br_if: u32,
    pub br_table: u32,
    pub br_table_per_entry: u32,
    pub call: u32,
    pub call_indirect: u32,
    pub call_indirect_per_param: u32,
    pub local_get: u32,
    pub local_set: u32,
    pub local_tee: u32,
    pub global_get: u32,
    pub global_set: u32,
    pub memory_current: u32,
    pub memory_grow: u32,
    pub i64clz: u32,
    pub i64ctz: u32,
    pub i64popcnt: u32,
    pub i64eqz: u32,
    pub i64extendsi32: u32,
    pub i64extendui32: u32,
    pub i32wrapi64: u32,
    pub i64eq: u32,
    pub i64ne: u32,
    pub i64lts: u32,
    pub i64ltu: u32,
    pub i64gts: u32,
    pub i64gtu: u32,
    pub i64les: u32,
    pub i64leu: u32,
    pub i64ges: u32,
    pub i64geu: u32,
    pub i64add: u32,
    pub i64sub: u32,
    pub i64mul: u32,
    pub i64divs: u32,
    pub i64divu: u32,
    pub i64rems: u32,
    pub i64remu: u32,
    pub i64and: u32,
    pub i64or: u32,
    pub i64xor: u32,
    pub i64shl: u32,
    pub i64shrs: u32,
    pub i64shru: u32,
    pub i64rotl: u32,
    pub i64rotr: u32,
}

impl InstructionWeights {
    /// The all-zero weight table: every instruction is free. This is the
    /// starting point until a benchmark run supplies measured values.
    pub open spec fn spec_zeroed() -> InstructionWeights {
        InstructionWeights {
            i64const: 0,
            i64load: 0,
            i64store: 0,
            select: 0,
            if_: 0,
            br: 0,
            br_if: 0,
            br_table: 0,
            br_table_per_entry: 0,
            call: 0,
            call_indirect: 0,
            call_indirect_per_param: 0,
            local_get: 0,
            local_set: 0,
            local_tee: 0,
            global_get: 0,
            global_set: 0,
            memory_current: 0,
            memory_grow: 0,
            i64clz: 0,
            i64ctz: 0,
            i64popcnt: 0,
            i64eqz: 0,
            i64extendsi32: 0,
            i64extendui32: 0,
            i32wrapi64: 0,
            i64eq: 0,
            i64ne: 0,
            i64lts: 0,
            i64ltu: 0,
            i64gts: 0,
            i64gtu: 0,
            i64les: 0,
            i64leu: 0,
            i64ges: 0,
            i64geu: 0,
            i64add: 0,
            i64sub: 0,
            i64mul: 0,
            i64divs: 0,
            i64divu: 0,
            i64rems: 0,
            i64remu: 0,
            i64and: 0,
            i64or: 0,
            i64xor: 0,
            i64shl: 0,
            i64shrs: 0,
            i64shru: 0,
            i64rotl: 0,
            i64rotr: 0,
        }
    }
}

impl Default for InstructionWeights {
    fn default() -> (r: Self)
        ensures
            r == Self::spec_zeroed(),
    {
        InstructionWeights {
            i64const: 0,
            i64load: 0,
            i64store: 0,
            select: 0,
            if_: 0,
            br: 0,
            br_if: 0,
            br_table: 0,
            br_table_per_entry: 0,
            call: 0,
            call_indirect: 0,
            call_indirect_per_param: 0,
            local_get: 0,
            local_set: 0,
            local_tee: 0,
            global_get: 0,
            global_set: 0,
            memory_current: 0,
            memory_grow: 0,
            i64clz: 0,
            i64ctz: 0,
            i64popcnt: 0,
            i64eqz: 0,
            i64extendsi32: 0,
            i64extendui32: 0,
            i32wrapi64: 0,
            i64eq: 0,
            i64ne: 0,
            i64lts: 0,
            i64ltu: 0,
            i64gts: 0,
            i64gtu: 0,
            i64les: 0,
            i64leu: 0,
            i64ges: 0,
            i64geu: 0,
            i64add: 0,
            i64sub: 0,
            i64mul: 0,
            i64divs: 0,
            i64divu: 0,
            i64rems: 0,
            i64remu: 0,
            i64and: 0,
            i64or: 0,
            i64xor: 0,
            i64shl: 0,
            i64shrs: 0,
            i64shru: 0,
            i64rotl: 0,
            i64rotr: 0,
        }
    }
}

} // verus!
