//! Defaults, limits, the instruction-to-weight mapping, and the version
//! rule for schedule replacement.

use contract_schedule::dispatch::{
    is_root, normalize_outcome, update_schedule, DispatchError, ErrorWithPostInfo, Origin, Pays,
    PostDispatchInfo,
};
use contract_schedule::instruction::Instruction;
use contract_schedule::limits::Limits;
use contract_schedule::rules::{IndirectionPricing, ScheduleRules};
use contract_schedule::schedule::{Schedule, ScheduleError};
use contract_schedule::weight_info::RainyelWeight;

/// Rules over a schedule whose constant-push, load, store and add
/// families carry the given distinct weights, so that a wrong family
/// lookup cannot go unnoticed.
fn rules_with(i64const: u32, i64load: u32, i64store: u32, i64add: u32) -> ScheduleRules {
    let mut schedule = Schedule::default();
    schedule.instruction_weights.i64const = i64const;
    schedule.instruction_weights.i64load = i64load;
    schedule.instruction_weights.i64store = i64store;
    schedule.instruction_weights.i64add = i64add;
    schedule.rules(Vec::new())
}

#[test]
fn print_test_schedule() {
    let schedule = Schedule::default();
    println!("{:#?}", schedule);
}

#[test]
fn default_schedule_is_diagnostics_free_with_standard_limits() {
    let schedule = Schedule::default();
    assert_eq!(schedule.version, 0);
    assert!(!schedule.enable_println);
    assert_eq!(schedule.limits.event_topics, 4);
    assert_eq!(schedule.limits.stack_height, 512);
    assert_eq!(schedule.limits.globals, 256);
    assert_eq!(schedule.limits.parameters, 128);
    assert_eq!(schedule.limits.memory_pages, 16);
    assert_eq!(schedule.limits.table_size, 4096);
    assert_eq!(schedule.limits.br_table_size, 256);
    assert_eq!(schedule.limits.subject_len, 32);
}

#[test]
fn enable_println_builder_only_touches_the_flag() {
    let schedule = Schedule::default().enable_println(true);
    assert!(schedule.enable_println);
    assert_eq!(schedule.limits, Limits::default());
    let schedule = schedule.enable_println(false);
    assert!(!schedule.enable_println);
}

#[test]
fn max_memory_size_of_sixteen_pages() {
    let limits = Limits::default();
    assert_eq!(limits.memory_pages, 16);
    assert_eq!(limits.max_memory_size(), 1_048_576);
}

#[test]
fn width_variants_cost_the_same() {
    let rules = rules_with(11, 22, 33, 44);
    let pairs = [
        (Instruction::I32Add, Instruction::I64Add),
        (Instruction::I32Load, Instruction::I64Load),
        (Instruction::I32Load8U, Instruction::I64Load),
        (Instruction::I64Load32S, Instruction::I64Load),
        (Instruction::I32Store16, Instruction::I64Store),
        (Instruction::I32Const, Instruction::I64Const),
        (Instruction::Block, Instruction::I64Const),
        (Instruction::Loop, Instruction::I64Const),
        (Instruction::Nop, Instruction::I64Const),
        (Instruction::Drop, Instruction::I64Const),
    ];
    for (a, b) in pairs {
        assert_eq!(rules.instruction_cost(&a), rules.instruction_cost(&b));
        assert!(rules.instruction_cost(&a).is_some());
    }
    assert_eq!(rules.instruction_cost(&Instruction::I32Add), Some(44));
    assert_eq!(rules.instruction_cost(&Instruction::I64Load8S), Some(22));
    assert_eq!(rules.instruction_cost(&Instruction::I64Store8), Some(33));
    assert_eq!(rules.instruction_cost(&Instruction::Nop), Some(11));
}

#[test]
fn structural_terminators_are_free() {
    let rules = rules_with(11, 22, 33, 44);
    for instr in [
        Instruction::End,
        Instruction::Unreachable,
        Instruction::Return,
        Instruction::Else,
    ] {
        assert_eq!(rules.instruction_cost(&instr), Some(0));
    }
}

#[test]
fn unpriced_instructions_are_rejected_not_defaulted() {
    let rules = rules_with(11, 22, 33, 44);
    for instr in [
        Instruction::F32Add,
        Instruction::F64Sqrt,
        Instruction::F32Const,
        Instruction::F64Load,
        Instruction::F32Store,
        Instruction::F64Eq,
        Instruction::I32TruncSF32,
        Instruction::I64TruncUF64,
        Instruction::F64ConvertSI64,
        Instruction::F32DemoteF64,
        Instruction::I32ReinterpretF32,
        Instruction::F64ReinterpretI64,
    ] {
        assert_eq!(rules.instruction_cost(&instr), None);
    }
}

#[test]
fn memory_grow_has_no_extra_cost() {
    let rules = Schedule::default().rules(vec![2, 0, 5]);
    assert!(rules.memory_grow_cost().is_none());
}

#[test]
fn version_regression_is_rejected_equal_or_newer_accepted() {
    let mut stored = Schedule::default();
    stored.version = 5;
    let mut candidate = Schedule::default();
    candidate.version = 4;
    assert_eq!(
        stored.validate_update(&candidate),
        Err(ScheduleError::InvalidScheduleVersion)
    );
    candidate.version = 5;
    assert_eq!(stored.validate_update(&candidate), Ok(()));
    candidate.version = 6;
    assert_eq!(stored.validate_update(&candidate), Ok(()));
}

#[test]
fn only_root_or_sudo_key_passes_the_origin_check() {
    assert_eq!(is_root(&Origin::Root, 17), Ok(()));
    assert_eq!(is_root(&Origin::Signed(17), 17), Ok(()));
    assert_eq!(is_root(&Origin::Signed(18), 17), Err(DispatchError::BadOrigin));
    assert_eq!(is_root(&Origin::Other, 17), Err(DispatchError::BadOrigin));
}

#[test]
fn update_schedule_gates_on_origin_then_version() {
    let mut stored = Schedule::default();
    stored.version = 3;
    let mut newer = Schedule::default();
    newer.version = 3;
    assert_eq!(update_schedule(&Origin::Root, 17, &stored, newer), Ok(newer));
    assert_eq!(
        update_schedule(&Origin::Signed(17), 17, &stored, newer),
        Ok(newer)
    );
    assert_eq!(
        update_schedule(&Origin::Signed(99), 17, &stored, newer),
        Err(DispatchError::BadOrigin)
    );
    let mut older = Schedule::default();
    older.version = 2;
    assert_eq!(
        update_schedule(&Origin::Root, 17, &stored, older),
        Err(DispatchError::InvalidScheduleVersion)
    );
}

#[test]
fn forwarded_outcomes_are_fee_waived_either_way() {
    let ok = Ok(PostDispatchInfo {
        actual_weight: Some(12345),
        pays_fee: Pays::Yes,
    });
    let normalized = normalize_outcome(ok).unwrap();
    assert_eq!(normalized.actual_weight, None);
    assert_eq!(normalized.pays_fee, Pays::No);

    let err = Err(ErrorWithPostInfo {
        error: DispatchError::BadOrigin,
        post_info: PostDispatchInfo {
            actual_weight: Some(777),
            pays_fee: Pays::Yes,
        },
    });
    let normalized = normalize_outcome(err).unwrap_err();
    assert_eq!(normalized.error, DispatchError::BadOrigin);
    assert_eq!(normalized.post_info.actual_weight, None);
    assert_eq!(normalized.post_info.pays_fee, Pays::No);
}

#[test]
fn zero_measurement_table_reports_zero_everywhere() {
    assert_eq!(RainyelWeight::update_schedule(), 0);
    assert_eq!(RainyelWeight::instr_i64add(10), 0);
    assert_eq!(RainyelWeight::seal_hash_sha2_256(3), 0);
    assert_eq!(RainyelWeight::instantiate_with_code(4, 5), 0);
}

#[test]
fn indirection_is_free_under_the_deployed_policy() {
    let mut schedule = Schedule::default();
    schedule.instruction_weights.call_indirect = 100;
    schedule.instruction_weights.call_indirect_per_param = 10;
    schedule.instruction_weights.br_table = 50;
    schedule.instruction_weights.br_table_per_entry = 5;
    let rules = schedule.rules(vec![3, 0]);
    assert_eq!(rules.indirection_pricing, IndirectionPricing::Free);
    assert_eq!(rules.instruction_cost(&Instruction::CallIndirect(0)), Some(0));
    assert_eq!(rules.instruction_cost(&Instruction::CallIndirect(9)), Some(0));
    assert_eq!(rules.instruction_cost(&Instruction::BrTable(256)), Some(0));
}

#[test]
fn indirection_uses_the_per_entry_constants_under_the_alternate_policy() {
    let mut schedule = Schedule::default();
    schedule.instruction_weights.call_indirect = 100;
    schedule.instruction_weights.call_indirect_per_param = 10;
    schedule.instruction_weights.br_table = 50;
    schedule.instruction_weights.br_table_per_entry = 5;
    let mut rules = schedule.rules(vec![3, 0]);
    rules.indirection_pricing = IndirectionPricing::PerEntry;
    // Target type 0 has three parameters, type 1 has none.
    assert_eq!(rules.instruction_cost(&Instruction::CallIndirect(0)), Some(130));
    assert_eq!(rules.instruction_cost(&Instruction::CallIndirect(1)), Some(100));
    // A type index the module never declared fails closed.
    assert_eq!(rules.instruction_cost(&Instruction::CallIndirect(2)), None);
    assert_eq!(rules.instruction_cost(&Instruction::BrTable(4)), Some(70));
    // The per-entry surcharge saturates instead of wrapping.
    rules.schedule.instruction_weights.br_table_per_entry = u32::MAX;
    assert_eq!(
        rules.instruction_cost(&Instruction::BrTable(2)),
        Some(u32::MAX)
    );
}
