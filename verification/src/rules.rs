//! The instruction-to-weight mapping handed to the instrumentation engine.
//!
//! A [`ScheduleRules`] is built once per module instrumentation pass from a
//! schedule snapshot and the module's per-function parameter counts, and is
//! discarded afterwards. Its mapping is a pure function: every validating
//! node computes the identical answer.

use crate::derivation::{sat_add_u32, sat_mul_u32, spec_sat_add_u32, spec_sat_mul_u32};
use crate::instr_weights::InstructionWeights;
use crate::instruction::Instruction;
use crate::schedule::Schedule;
use vstd::prelude::*;

verus! {

/// Dynamic cost policy for growing the linear memory, in addition to the
/// flat cost of the grow instruction itself.
#[derive(Clone, Copy, PartialEq, Eq, Structural, Debug)]
pub enum MemoryGrowCost {
    /// Charge the given amount for each page the memory is grown by.
    Linear(u32),
}

/// How the indirect-call family and branch tables are priced.
///
/// The weight tables carry per-parameter and per-entry constants for
/// exactly these instructions, yet the mapping as deployed charges zero
/// for them regardless of target type or entry count. Both readings stand
/// behind this policy, so either can be asserted until the intent is
/// settled; [`IndirectionPricing::Free`] is the deployed behavior and the
/// default.
#[derive(Clone, Copy, PartialEq, Eq, Structural, Debug)]
pub enum IndirectionPricing {
    /// An indirect call or branch table costs zero, whatever its type
    /// index or entry count.
    Free,
    /// An indirect call costs its flat weight plus the per-parameter
    /// weight for each parameter of its target type (an out-of-range type
    /// index is rejected), and a branch table costs its flat weight plus
    /// the per-entry weight for each entry, saturating at the maximum.
    PerEntry,
}

/// Answers "what does this one instruction cost?" for one module
/// instrumentation pass.
pub struct ScheduleRules {
    /// The schedule snapshot the answers are computed from.
    pub schedule: Schedule,
    /// Parameter count of each function type declared by the module, in
    /// declaration order: needed to price indirect calls proportionally to
    /// the parameter count of the called function.
    pub params: Vec<u32>,
    /// How indirect calls and branch tables are priced.
    pub indirection_pricing: IndirectionPricing,
}

/// The cost of one indirect call under the per-entry policy: the flat
/// weight plus the per-parameter weight for each parameter of the target
/// type; a type index the module does not declare is rejected.
pub open spec fn spec_indirect_call_cost(
    w: InstructionWeights,
    params: Seq<u32>,
    idx: u32,
) -> Option<u32> {
    if idx < params.len() {
        Some(spec_sat_add_u32(w.call_indirect, spec_sat_mul_u32(w.call_indirect_per_param, params[idx as int])))
    } else {
        None
    }
}

/// The cost of one branch table under the per-entry policy: the flat
/// weight plus the per-entry weight for each entry.
pub open spec fn spec_br_table_cost(w: InstructionWeights, entries: u32) -> u32 {
    spec_sat_add_u32(w.br_table, spec_sat_mul_u32(w.br_table_per_entry, entries))
}

/// The weight of one instruction under the given weight table, or `None`
/// for an instruction this environment refuses to price.
///
/// Families of same-semantics instructions differing only in operand width
/// share the weight of their 64-bit member. The four structural
/// terminators are free: they cannot be spammed without making the module
/// invalid. Block, Loop and Nop cannot be benchmarked on their own and are
/// priced like the constant push, as are the constant pushes and Drop
/// themselves. An unrecognized or unsupported instruction yields `None`:
/// metering must fail closed, never fall back to a default price.
pub open spec fn spec_instruction_cost(
    w: InstructionWeights,
    params: Seq<u32>,
    pricing: IndirectionPricing,
    instruction: Instruction,
) -> Option<u32> {
    match instruction {
        Instruction::End | Instruction::Unreachable | Instruction::Return | Instruction::Else => Some(
            0u32,
        ),
        Instruction::I32Const | Instruction::I64Const | Instruction::Block | Instruction::Loop
            | Instruction::Nop | Instruction::Drop => Some(w.i64const),
        Instruction::I32Load | Instruction::I32Load8S | Instruction::I32Load8U
            | Instruction::I32Load16S | Instruction::I32Load16U | Instruction::I64Load
            | Instruction::I64Load8S | Instruction::I64Load8U | Instruction::I64Load16S
            | Instruction::I64Load16U | Instruction::I64Load32S | Instruction::I64Load32U => Some(
            w.i64load,
        ),
        Instruction::I32Store | Instruction::I32Store8 | Instruction::I32Store16
            | Instruction::I64Store | Instruction::I64Store8 | Instruction::I64Store16
            | Instruction::I64Store32 => Some(w.i64store),
        Instruction::Select => Some(w.select),
        Instruction::If => Some(w.if_),
        Instruction::Br => Some(w.br),
        Instruction::BrIf => Some(w.br_if),
        Instruction::Call => Some(w.call),
        Instruction::GetLocal => Some(w.local_get),
        Instruction::SetLocal => Some(w.local_set),
        Instruction::TeeLocal => Some(w.local_tee),
        Instruction::GetGlobal => Some(w.global_get),
        Instruction::SetGlobal => Some(w.global_set),
        Instruction::CurrentMemory => Some(w.memory_current),
        Instruction::GrowMemory => Some(w.memory_grow),
        Instruction::CallIndirect(idx) => match pricing {
            IndirectionPricing::Free => Some(0u32),
            IndirectionPricing::PerEntry => spec_indirect_call_cost(w, params, idx),
        },
        Instruction::BrTable(entries) => match pricing {
            IndirectionPricing::Free => Some(0u32),
            IndirectionPricing::PerEntry => Some(spec_br_table_cost(w, entries)),
        },
        Instruction::I32Clz | Instruction::I64Clz => Some(w.i64clz),
        Instruction::I32Ctz | Instruction::I64Ctz => Some(w.i64ctz),
        Instruction::I32Popcnt | Instruction::I64Popcnt => Some(w.i64popcnt),
        Instruction::I32Eqz | Instruction::I64Eqz => Some(w.i64eqz),
        Instruction::I64ExtendSI32 => Some(w.i64extendsi32),
        Instruction::I64ExtendUI32 => Some(w.i64extendui32),
        Instruction::I32WrapI64 => Some(w.i32wrapi64),
        Instruction::I32Eq | Instruction::I64Eq => Some(w.i64eq),
        Instruction::I32Ne | Instruction::I64Ne => Some(w.i64ne),
        Instruction::I32LtS | Instruction::I64LtS => Some(w.i64lts),
        Instruction::I32LtU | Instruction::I64LtU => Some(w.i64ltu),
        Instruction::I32GtS | Instruction::I64GtS => Some(w.i64gts),
        Instruction::I32GtU | Instruction::I64GtU => Some(w.i64gtu),
        Instruction::I32LeS | Instruction::I64LeS => Some(w.i64les),
        Instruction::I32LeU | Instruction::I64LeU => Some(w.i64leu),
        Instruction::I32GeS | Instruction::I64GeS => Some(w.i64ges),
        Instruction::I32GeU | Instruction::I64GeU => Some(w.i64geu),
        Instruction::I32Add | Instruction::I64Add => Some(w.i64add),
        Instruction::I32Sub | Instruction::I64Sub => Some(w.i64sub),
        Instruction::I32Mul | Instruction::I64Mul => Some(w.i64mul),
        Instruction::I32DivS | Instruction::I64DivS => Some(w.i64divs),
        Instruction::I32DivU | Instruction::I64DivU => Some(w.i64divu),
        Instruction::I32RemS | Instruction::I64RemS => Some(w.i64rems),
        Instruction::I32RemU | Instruction::I64RemU => Some(w.i64remu),
        Instruction::I32And | Instruction::I64And => Some(w.i64and),
        Instruction::I32Or | Instruction::I64Or => Some(w.i64or),
        Instruction::I32Xor | Instruction::I64Xor => Some(w.i64xor),
        Instruction::I32Shl | Instruction::I64Shl => Some(w.i64shl),
        Instruction::I32ShrS | Instruction::I64ShrS => Some(w.i64shrs),
        Instruction::I32ShrU | Instruction::I64ShrU => Some(w.i64shru),
        Instruction::I32Rotl | Instruction::I64Rotl => Some(w.i64rotl),
        Instruction::I32Rotr | Instruction::I64Rotr => Some(w.i64rotr),
        _ => None,
    }
}

/// True of exactly the instructions this environment refuses to price: the
/// floating point families and every conversion touching them.
pub open spec fn spec_unpriced(instruction: Instruction) -> bool {
    match instruction {
        Instruction::F32Load | Instruction::F64Load | Instruction::F32Store
            | Instruction::F64Store | Instruction::F32Const | Instruction::F64Const
            | Instruction::F32Eq | Instruction::F32Ne | Instruction::F32Lt | Instruction::F32Gt
            | Instruction::F32Le | Instruction::F32Ge | Instruction::F64Eq | Instruction::F64Ne
            | Instruction::F64Lt | Instruction::F64Gt | Instruction::F64Le | Instruction::F64Ge
            | Instruction::F32Abs | Instruction::F32Neg | Instruction::F32Ceil
            | Instruction::F32Floor | Instruction::F32Trunc | Instruction::F32Nearest
            | Instruction::F32Sqrt | Instruction::F32Add | Instruction::F32Sub
            | Instruction::F32Mul | Instruction::F32Div | Instruction::F32Min
            | Instruction::F32Max | Instruction::F32Copysign | Instruction::F64Abs
            | Instruction::F64Neg | Instruction::F64Ceil | Instruction::F64Floor
            | Instruction::F64Trunc | Instruction::F64Nearest | Instruction::F64Sqrt
            | Instruction::F64Add | Instruction::F64Sub | Instruction::F64Mul
            | Instruction::F64Div | Instruction::F64Min | Instruction::F64Max
            | Instruction::F64Copysign | Instruction::I32TruncSF32 | Instruction::I32TruncUF32
            | Instruction::I32TruncSF64 | Instruction::I32TruncUF64 | Instruction::I64TruncSF32
            | Instruction::I64TruncUF32 | Instruction::I64TruncSF64 | Instruction::I64TruncUF64
            | Instruction::F32ConvertSI32 | Instruction::F32ConvertUI32
            | Instruction::F32ConvertSI64 | Instruction::F32ConvertUI64
            | Instruction::F32DemoteF64 | Instruction::F64ConvertSI32
            | Instruction::F64ConvertUI32 | Instruction::F64ConvertSI64
            | Instruction::F64ConvertUI64 | Instruction::F64PromoteF32
            | Instruction::I32ReinterpretF32 | Instruction::I64ReinterpretF64
            | Instruction::F32ReinterpretI32 | Instruction::F64ReinterpretI64 => true,
        _ => false,
    }
}

impl Schedule {
    /// Build the per-module rules object for one instrumentation pass.
    ///
    /// `params` is the parameter count of each function type the module
    /// declares, in declaration order. The rules hold a snapshot of this
    /// schedule, so a concurrent replacement of the stored schedule can
    /// never produce a torn read during the pass.
    pub fn rules(&self, params: Vec<u32>) -> (r: ScheduleRules)
        ensures
            r.schedule == *self,
            r.params == params,
            r.indirection_pricing == IndirectionPricing::Free,
    {
        ScheduleRules { schedule: *self, params, indirection_pricing: IndirectionPricing::Free }
    }
}

impl ScheduleRules {
    /// The cost of one instruction under this schedule, or `None` if the
    /// instruction is not priced, which the instrumentation engine must
    /// treat as a hard validation failure for the whole module.
    pub fn instruction_cost(&self, instruction: &Instruction) -> (r: Option<u32>)
        ensures
            r == spec_instruction_cost(
                self.schedule.instruction_weights,
                self.params@,
                self.indirection_pricing,
                *instruction,
            ),
    {
        let w = &self.schedule.instruction_weights;
        let weight = match *instruction {
            Instruction::End | Instruction::Unreachable | Instruction::Return
                | Instruction::Else => 0u32,
            Instruction::I32Const | Instruction::I64Const | Instruction::Block
                | Instruction::Loop | Instruction::Nop | Instruction::Drop => w.i64const,
            Instruction::I32Load | Instruction::I32Load8S | Instruction::I32Load8U
                | Instruction::I32Load16S | Instruction::I32Load16U | Instruction::I64Load
                | Instruction::I64Load8S | Instruction::I64Load8U | Instruction::I64Load16S
                | Instruction::I64Load16U | Instruction::I64Load32S
                | Instruction::I64Load32U => w.i64load,
            Instruction::I32Store | Instruction::I32Store8 | Instruction::I32Store16
                | Instruction::I64Store | Instruction::I64Store8 | Instruction::I64Store16
                | Instruction::I64Store32 => w.i64store,
            Instruction::Select => w.select,
            Instruction::If => w.if_,
            Instruction::Br => w.br,
            Instruction::BrIf => w.br_if,
            Instruction::Call => w.call,
            Instruction::GetLocal => w.local_get,
            Instruction::SetLocal => w.local_set,
            Instruction::TeeLocal => w.local_tee,
            Instruction::GetGlobal => w.global_get,
            Instruction::SetGlobal => w.global_set,
            Instruction::CurrentMemory => w.memory_current,
            Instruction::GrowMemory => w.memory_grow,
            Instruction::CallIndirect(idx) => match self.indirection_pricing {
                IndirectionPricing::Free => 0u32,
                IndirectionPricing::PerEntry => {
                    if (idx as usize) < self.params.len() {
                        sat_add_u32(
                            w.call_indirect,
                            sat_mul_u32(w.call_indirect_per_param, self.params[idx as usize]),
                        )
                    } else {
                        return None;
                    }
                },
            },
            Instruction::BrTable(entries) => match self.indirection_pricing {
                IndirectionPricing::Free => 0u32,
                IndirectionPricing::PerEntry => sat_add_u32(
                    w.br_table,
                    sat_mul_u32(w.br_table_per_entry, entries),
                ),
            },
            Instruction::I32Clz | Instruction::I64Clz => w.i64clz,
            Instruction::I32Ctz | Instruction::I64Ctz => w.i64ctz,
            Instruction::I32Popcnt | Instruction::I64Popcnt => w.i64popcnt,
            Instruction::I32Eqz | Instruction::I64Eqz => w.i64eqz,
            Instruction::I64ExtendSI32 => w.i64extendsi32,
            Instruction::I64ExtendUI32 => w.i64extendui32,
            Instruction::I32WrapI64 => w.i32wrapi64,
            Instruction::I32Eq | Instruction::I64Eq => w.i64eq,
            Instruction::I32Ne | Instruction::I64Ne => w.i64ne,
            Instruction::I32LtS | Instruction::I64LtS => w.i64lts,
            Instruction::I32LtU | Instruction::I64LtU => w.i64ltu,
            Instruction::I32GtS | Instruction::I64GtS => w.i64gts,
            Instruction::I32GtU | Instruction::I64GtU => w.i64gtu,
            Instruction::I32LeS | Instruction::I64LeS => w.i64les,
            Instruction::I32LeU | Instruction::I64LeU => w.i64leu,
            Instruction::I32GeS | Instruction::I64GeS => w.i64ges,
            Instruction::I32GeU | Instruction::I64GeU => w.i64geu,
            Instruction::I32Add | Instruction::I64Add => w.i64add,
            Instruction::I32Sub | Instruction::I64Sub => w.i64sub,
            Instruction::I32Mul | Instruction::I64Mul => w.i64mul,
            Instruction::I32DivS | Instruction::I64DivS => w.i64divs,
            Instruction::I32DivU | Instruction::I64DivU => w.i64divu,
            Instruction::I32RemS | Instruction::I64RemS => w.i64rems,
            Instruction::I32RemU | Instruction::I64RemU => w.i64remu,
            Instruction::I32And | Instruction::I64And => w.i64and,
            Instruction::I32Or | Instruction::I64Or => w.i64or,
            Instruction::I32Xor | Instruction::I64Xor => w.i64xor,
            Instruction::I32Shl | Instruction::I64Shl => w.i64shl,
            Instruction::I32ShrS | Instruction::I64ShrS => w.i64shrs,
            Instruction::I32ShrU | Instruction::I64ShrU => w.i64shru,
            Instruction::I32Rotl | Instruction::I64Rotl => w.i64rotl,
            Instruction::I32Rotr | Instruction::I64Rotr => w.i64rotr,
            // Returning None makes the gas instrumentation fail, which is
            // intended for unsupported or unknown instructions.
            _ => {
                return None;
            },
        };
        Some(weight)
    }

    /// Dynamic cost of growing the linear memory.
    ///
    /// Returns `None`, meaning no additional charge: the grow instruction
    /// is benchmarked with the maximum allowed page count, so the cost of
    /// growing is already included in its flat instruction cost.
    pub fn memory_grow_cost(&self) -> (r: Option<MemoryGrowCost>)
        ensures
            r is None,
    {
        None
    }
}

/// Instructions of one equivalence class cost the same: the weight table
/// assigns one weight per family, whatever its members' operand widths.
pub proof fn lemma_equivalence_classes_share_weight(
    w: InstructionWeights,
    params: Seq<u32>,
    pricing: IndirectionPricing,
)
    ensures
        spec_instruction_cost(w, params, pricing, Instruction::I32Load) == spec_instruction_cost(
            w,
            params,
            pricing,
            Instruction::I64Load,
        ),
        spec_instruction_cost(w, params, pricing, Instruction::I32Load8S) == spec_instruction_cost(
            w,
            params,
            pricing,
            Instruction::I64Load,
        ),
        spec_instruction_cost(w, params, pricing, Instruction::I32Load8U) == spec_instruction_cost(
            w,
            params,
            pricing,
            Instruction::I64Load,
        ),
        spec_instruction_cost(w, params, pricing, Instruction::I32Load16S) == spec_instruction_cost(
            w,
            params,
            pricing,
            Instruction::I64Load,
        ),
        spec_instruction_cost(w, params, pricing, Instruction::I32Load16U) == spec_instruction_cost(
            w,
            params,
            pricing,
            Instruction::I64Load,
        ),
        spec_instruction_cost(w, params, pricing, Instruction::I64Load8S) == spec_instruction_cost(
            w,
            params,
            pricing,
            Instruction::I64Load,
        ),
        spec_instruction_cost(w, params, pricing, Instruction::I64Load8U) == spec_instruction_cost(
            w,
            params,
            pricing,
            Instruction::I64Load,
        ),
        spec_instruction_cost(w, params, pricing, Instruction::I64Load16S) == spec_instruction_cost(
            w,
            params,
            pricing,
            Instruction::I64Load,
        ),
        spec_instruction_cost(w, params, pricing, Instruction::I64Load16U) == spec_instruction_cost(
            w,
            params,
            pricing,
            Instruction::I64Load,
        ),
        spec_instruction_cost(w, params, pricing, Instruction::I64Load32S) == spec_instruction_cost(
            w,
            params,
            pricing,
            Instruction::I64Load,
        ),
        spec_instruction_cost(w, params, pricing, Instruction::I64Load32U) == spec_instruction_cost(
            w,
            params,
            pricing,
            Instruction::I64Load,
        ),
        spec_instruction_cost(w, params, pricing, Instruction::I32Store) == spec_instruction_cost(
            w,
            params,
            pricing,
            Instruction::I64Store,
        ),
        spec_instruction_cost(w, params, pricing, Instruction::I32Store8) == spec_instruction_cost(
            w,
            params,
            pricing,
            Instruction::I64Store,
        ),
        spec_instruction_cost(w, params, pricing, Instruction::I32Store16) == spec_instruction_cost(
            w,
            params,
            pricing,
            Instruction::I64Store,
        ),
        spec_instruction_cost(w, params, pricing, Instruction::I64Store8) == spec_instruction_cost(
            w,
            params,
            pricing,
            Instruction::I64Store,
        ),
        spec_instruction_cost(w, params, pricing, Instruction::I64Store16) == spec_instruction_cost(
            w,
            params,
            pricing,
            Instruction::I64Store,
        ),
        spec_instruction_cost(w, params, pricing, Instruction::I64Store32) == spec_instruction_cost(
            w,
            params,
            pricing,
            Instruction::I64Store,
        ),
        spec_instruction_cost(w, params, pricing, Instruction::I32Const) == spec_instruction_cost(
            w,
            params,
            pricing,
            Instruction::I64Const,
        ),
        spec_instruction_cost(w, params, pricing, Instruction::Block) == spec_instruction_cost(
            w,
            params,
            pricing,
            Instruction::I64Const,
        ),
        spec_instruction_cost(w, params, pricing, Instruction::Loop) == spec_instruction_cost(
            w,
            params,
            pricing,
            Instruction::I64Const,
        ),
        spec_instruction_cost(w, params, pricing, Instruction::Nop) == spec_instruction_cost(
            w,
            params,
            pricing,
            Instruction::I64Const,
        ),
        spec_instruction_cost(w, params, pricing, Instruction::Drop) == spec_instruction_cost(
            w,
            params,
            pricing,
            Instruction::I64Const,
        ),
        spec_instruction_cost(w, params, pricing, Instruction::I32Clz) == spec_instruction_cost(
            w,
            params,
            pricing,
            Instruction::I64Clz,
        ),
        spec_instruction_cost(w, params, pricing, Instruction::I32Ctz) == spec_instruction_cost(
            w,
            params,
            pricing,
            Instruction::I64Ctz,
        ),
        spec_instruction_cost(w, params, pricing, Instruction::I32Popcnt) == spec_instruction_cost(
            w,
            params,
            pricing,
            Instruction::I64Popcnt,
        ),
        spec_instruction_cost(w, params, pricing, Instruction::I32Eqz) == spec_instruction_cost(
            w,
            params,
            pricing,
            Instruction::I64Eqz,
        ),
        spec_instruction_cost(w, params, pricing, Instruction::I32Eq) == spec_instruction_cost(
            w,
            params,
            pricing,
            Instruction::I64Eq,
        ),
        spec_instruction_cost(w, params, pricing, Instruction::I32Ne) == spec_instruction_cost(
            w,
            params,
            pricing,
            Instruction::I64Ne,
        ),
        spec_instruction_cost(w, params, pricing, Instruction::I32LtS) == spec_instruction_cost(
            w,
            params,
            pricing,
            Instruction::I64LtS,
        ),
        spec_instruction_cost(w, params, pricing, Instruction::I32LtU) == spec_instruction_cost(
            w,
            params,
            pricing,
            Instruction::I64LtU,
        ),
        spec_instruction_cost(w, params, pricing, Instruction::I32GtS) == spec_instruction_cost(
            w,
            params,
            pricing,
            Instruction::I64GtS,
        ),
        spec_instruction_cost(w, params, pricing, Instruction::I32GtU) == spec_instruction_cost(
            w,
            params,
            pricing,
            Instruction::I64GtU,
        ),
        spec_instruction_cost(w, params, pricing, Instruction::I32LeS) == spec_instruction_cost(
            w,
            params,
            pricing,
            Instruction::I64LeS,
        ),
        spec_instruction_cost(w, params, pricing, Instruction::I32LeU) == spec_instruction_cost(
            w,
            params,
            pricing,
            Instruction::I64LeU,
        ),
        spec_instruction_cost(w, params, pricing, Instruction::I32GeS) == spec_instruction_cost(
            w,
            params,
            pricing,
            Instruction::I64GeS,
        ),
        spec_instruction_cost(w, params, pricing, Instruction::I32GeU) == spec_instruction_cost(
            w,
            params,
            pricing,
            Instruction::I64GeU,
        ),
        spec_instruction_cost(w, params, pricing, Instruction::I32Add) == spec_instruction_cost(
            w,
            params,
            pricing,
            Instruction::I64Add,
        ),
        spec_instruction_cost(w, params, pricing, Instruction::I32Sub) == spec_instruction_cost(
            w,
            params,
            pricing,
            Instruction::I64Sub,
        ),
        spec_instruction_cost(w, params, pricing, Instruction::I32Mul) == spec_instruction_cost(
            w,
            params,
            pricing,
            Instruction::I64Mul,
        ),
        spec_instruction_cost(w, params, pricing, Instruction::I32DivS) == spec_instruction_cost(
            w,
            params,
            pricing,
            Instruction::I64DivS,
        ),
        spec_instruction_cost(w, params, pricing, Instruction::I32DivU) == spec_instruction_cost(
            w,
            params,
            pricing,
            Instruction::I64DivU,
        ),
        spec_instruction_cost(w, params, pricing, Instruction::I32RemS) == spec_instruction_cost(
            w,
            params,
            pricing,
            Instruction::I64RemS,
        ),
        spec_instruction_cost(w, params, pricing, Instruction::I32RemU) == spec_instruction_cost(
            w,
            params,
            pricing,
            Instruction::I64RemU,
        ),
        spec_instruction_cost(w, params, pricing, Instruction::I32And) == spec_instruction_cost(
            w,
            params,
            pricing,
            Instruction::I64And,
        ),
        spec_instruction_cost(w, params, pricing, Instruction::I32Or) == spec_instruction_cost(
            w,
            params,
            pricing,
            Instruction::I64Or,
        ),
        spec_instruction_cost(w, params, pricing, Instruction::I32Xor) == spec_instruction_cost(
            w,
            params,
            pricing,
            Instruction::I64Xor,
        ),
        spec_instruction_cost(w, params, pricing, Instruction::I32Shl) == spec_instruction_cost(
            w,
            params,
            pricing,
            Instruction::I64Shl,
        ),
        spec_instruction_cost(w, params, pricing, Instruction::I32ShrS) == spec_instruction_cost(
            w,
            params,
            pricing,
            Instruction::I64ShrS,
        ),
        spec_instruction_cost(w, params, pricing, Instruction::I32ShrU) == spec_instruction_cost(
            w,
            params,
            pricing,
            Instruction::I64ShrU,
        ),
        spec_instruction_cost(w, params, pricing, Instruction::I32Rotl) == spec_instruction_cost(
            w,
            params,
            pricing,
            Instruction::I64Rotl,
        ),
        spec_instruction_cost(w, params, pricing, Instruction::I32Rotr) == spec_instruction_cost(
            w,
            params,
            pricing,
            Instruction::I64Rotr,
        ),
{
}

/// The four structural terminators are always free, whatever the weight
/// table holds: they cannot be spammed without invalidating the module.
pub proof fn lemma_structural_terminators_free(
    w: InstructionWeights,
    params: Seq<u32>,
    pricing: IndirectionPricing,
)
    ensures
        spec_instruction_cost(w, params, pricing, Instruction::End) == Some(0u32),
        spec_instruction_cost(w, params, pricing, Instruction::Unreachable) == Some(0u32),
        spec_instruction_cost(w, params, pricing, Instruction::Return) == Some(0u32),
        spec_instruction_cost(w, params, pricing, Instruction::Else) == Some(0u32),
{
}

/// Fail-closed pricing: an instruction outside the priced set is always
/// rejected, never given a default weight; and under the deployed
/// indirection pricing the rejected instructions are exactly those, so
/// every priced instruction gets a weight.
pub proof fn lemma_unpriced_rejected(
    w: InstructionWeights,
    params: Seq<u32>,
    pricing: IndirectionPricing,
)
    ensures
        forall|i: Instruction|
            spec_unpriced(i) ==> spec_instruction_cost(w, params, pricing, i) is None,
        pricing == IndirectionPricing::Free ==> forall|i: Instruction|
            spec_unpriced(i) <==> spec_instruction_cost(w, params, pricing, i) is None,
{
}

} // verus!
