use std::collections::HashMap;

use cairo_vm::hint_processor::builtin_hint_processor::dict_manager::DictManager;
use cairo_vm::hint_processor::builtin_hint_processor::hint_utils::get_relocatable_from_var_name;
use cairo_vm::hint_processor::hint_processor_definition::HintReference;
use cairo_vm::serde::deserialize_program::ApTracking;
use cairo_vm::types::relocatable::{MaybeRelocatable, Relocatable};
use cairo_vm::vm::vm_core::VirtualMachine;
use cairo_vm::Felt252;

use syscall_hints::addr::Addr;
use syscall_hints::error::{Mismatch, SyscallHintError, Violation};
use syscall_hints::felt::Felt;
use syscall_hints::segment::{set_syscall_ptr, SyscallPtrSlot};
use syscall_hints::state_entry::fetch_state_entry_5;
use syscall_hints::storage::{cache_contract_storage_2, check_storage_value, StorageOracle};

fn vm_with_segments(n: usize) -> VirtualMachine {
    let mut vm = VirtualMachine::new(false, false);
    for _ in 0..n {
        vm.add_memory_segment();
    }
    vm
}

#[test]
fn test_set_syscall_ptr() {
    let mut vm = vm_with_segments(2);
    vm.set_fp(2);
    let ids_data = HashMap::from([
        ("os_context".to_string(), HintReference::new_simple(-2)),
        ("syscall_ptr".to_string(), HintReference::new_simple(-1)),
    ]);
    let mut slot = SyscallPtrSlot::new();
    assert_eq!(slot.syscall_ptr(), None);
    let os_context_loc = get_relocatable_from_var_name("os_context", &vm, &ids_data, &ApTracking::new()).unwrap();
    let syscall_ptr_loc = get_relocatable_from_var_name("syscall_ptr", &vm, &ids_data, &ApTracking::new()).unwrap();
    let loc = |r: Relocatable| Addr::new(r.segment_index, r.offset);
    set_syscall_ptr(&mut vm, &mut slot, loc(os_context_loc), loc(syscall_ptr_loc)).unwrap();
    let os_context = vm.get_relocatable(Relocatable::from((1, 0))).unwrap();
    let syscall_ptr = vm.get_relocatable(Relocatable::from((1, 1))).unwrap();
    assert_eq!(os_context, Relocatable::from((2, 0)));
    assert_eq!(syscall_ptr, Relocatable::from((3, 0)));
    assert_eq!(slot.syscall_ptr(), Some(Addr::new(3, 0)));
    assert_eq!(vm.segments.num_segments(), 4);
}

#[test]
fn set_syscall_ptr_refuses_an_occupied_slot() {
    let mut vm = vm_with_segments(2);
    vm.insert_value(Relocatable::from((1, 0)), Felt252::from(5u64)).unwrap();
    let mut slot = SyscallPtrSlot::new();
    let r = set_syscall_ptr(&mut vm, &mut slot, Addr::new(1, 0), Addr::new(1, 1));
    assert!(matches!(r, Err(SyscallHintError::Memory(_))));
    assert_eq!(slot.syscall_ptr(), None);
}

#[test]
fn repeated_set_up_moves_the_pointer() {
    let mut vm = vm_with_segments(2);
    let mut slot = SyscallPtrSlot::new();
    set_syscall_ptr(&mut vm, &mut slot, Addr::new(1, 0), Addr::new(1, 1)).unwrap();
    set_syscall_ptr(&mut vm, &mut slot, Addr::new(1, 2), Addr::new(1, 3)).unwrap();
    assert_eq!(slot.syscall_ptr(), Some(Addr::new(5, 0)));
}

/// A state-changes dictionary in a fresh segment (3), mapping contract 77 to
/// the state entry at (2, 0); the slots are (1, 0) and (1, 1).
fn state_fixture(default: bool) -> (VirtualMachine, DictManager, Relocatable) {
    let mut vm = vm_with_segments(3);
    let mut dm = DictManager::new();
    let mut init = HashMap::new();
    init.insert(MaybeRelocatable::from(Felt252::from(77u64)), MaybeRelocatable::from(Relocatable::from((2, 0))));
    let base = if default {
        dm.new_default_dict(&mut vm, &MaybeRelocatable::from(Felt252::from(0u64)), Some(init)).unwrap()
    } else {
        dm.new_dict(&mut vm, init).unwrap()
    };
    (vm, dm, base.get_relocatable().unwrap())
}

#[test]
fn fetch_state_entry_writes_old_and_fresh_new_entry() {
    let (mut vm, dm, base) = state_fixture(false);
    let before = vm.segments.num_segments();
    let d = &dm.get_tracker(base).unwrap().data;
    fetch_state_entry_5(&mut vm, d, Felt::from_u64(77), Addr::new(1, 0), Addr::new(1, 1)).unwrap();
    let old_entry = vm.get_relocatable(Relocatable::from((1, 0))).unwrap();
    let new_entry = vm.get_relocatable(Relocatable::from((1, 1))).unwrap();
    assert_eq!(old_entry, Relocatable::from((2, 0)));
    assert_eq!(new_entry, Relocatable::from((before as isize, 0)));
    assert_ne!(old_entry, new_entry);
}

#[test]
fn fetch_state_entry_refuses_default_dictionary() {
    let (mut vm, dm, base) = state_fixture(true);
    let before = vm.segments.num_segments();
    let d = &dm.get_tracker(base).unwrap().data;
    let r = fetch_state_entry_5(&mut vm, d, Felt::from_u64(77), Addr::new(1, 0), Addr::new(1, 1));
    assert!(matches!(r, Err(SyscallHintError::InvariantViolation(Violation::DefaultDictionary))));
    assert_eq!(vm.segments.num_segments(), before);
    assert!(vm.get_relocatable(Relocatable::from((1, 0))).is_err());
}

#[test]
fn fetch_state_entry_refuses_missing_entry() {
    let (mut vm, dm, base) = state_fixture(false);
    let d = &dm.get_tracker(base).unwrap().data;
    let r = fetch_state_entry_5(&mut vm, d, Felt::from_u64(78), Addr::new(1, 0), Addr::new(1, 1));
    assert!(matches!(r, Err(SyscallHintError::InvariantViolation(Violation::MissingStateEntry))));
}

#[test]
fn repeated_fetches_stage_distinct_segments() {
    let (mut vm, dm, base) = state_fixture(false);
    let d = &dm.get_tracker(base).unwrap().data;
    fetch_state_entry_5(&mut vm, d, Felt::from_u64(77), Addr::new(1, 0), Addr::new(1, 1)).unwrap();
    fetch_state_entry_5(&mut vm, d, Felt::from_u64(77), Addr::new(1, 2), Addr::new(1, 3)).unwrap();
    let first = vm.get_relocatable(Relocatable::from((1, 1))).unwrap();
    let second = vm.get_relocatable(Relocatable::from((1, 3))).unwrap();
    assert_eq!(first, Relocatable::from((4, 0)));
    assert_eq!(second, Relocatable::from((5, 0)));
}

struct FixedOracle {
    values: HashMap<(Felt, Felt), Felt>,
    reads: usize,
}

impl StorageOracle for FixedOracle {
    fn read_storage(&mut self, contract: &Felt, key: &Felt) -> Option<Felt> {
        self.reads += 1;
        self.values.get(&(*contract, *key)).copied()
    }
}

fn oracle_with(contract: u64, key: u64, value: u64) -> FixedOracle {
    FixedOracle {
        values: HashMap::from([((Felt::from_u64(contract), Felt::from_u64(key)), Felt::from_u64(value))]),
        reads: 0,
    }
}

#[test]
fn storage_mismatch_reports_both_values() {
    let r = check_storage_value(Felt::from_u64(1), Felt::from_u64(2), Some(Felt::from_u64(42)), Felt::from_u64(7));
    match r {
        Err(SyscallHintError::Inconsistency(Mismatch::StorageValue { observed, stored })) => {
            assert_eq!(observed, Felt::from_u64(7));
            assert_eq!(stored, Felt::from_u64(42));
        }
        other => panic!("unexpected {:?}", other),
    }
}

#[test]
fn storage_oracle_miss_reports_pair() {
    let r = check_storage_value(Felt::from_u64(1), Felt::from_u64(2), None, Felt::from_u64(7));
    match r {
        Err(SyscallHintError::OracleMiss { contract, key }) => {
            assert_eq!(contract, Felt::from_u64(1));
            assert_eq!(key, Felt::from_u64(2));
        }
        other => panic!("unexpected {:?}", other),
    }
}

/// Segment 2 holds the storage-read request: a selector, then key 5.
fn storage_fixture() -> VirtualMachine {
    let mut vm = vm_with_segments(3);
    vm.insert_value(Relocatable::from((2, 0)), Felt252::from(100u64)).unwrap();
    vm.insert_value(Relocatable::from((2, 1)), Felt252::from(5u64)).unwrap();
    vm
}

#[test]
fn cache_contract_storage_mismatch_scenario() {
    let vm = storage_fixture();
    let value = Felt::from_u64(7);
    let mut oracle = oracle_with(9, 5, 42);
    match cache_contract_storage_2(&vm, &mut oracle, Felt::from_u64(9), Addr::new(2, 0), value) {
        Err(SyscallHintError::Inconsistency(Mismatch::StorageValue { observed, stored })) => {
            assert_eq!(observed, Felt::from_u64(7));
            assert_eq!(stored, Felt::from_u64(42));
        }
        other => panic!("unexpected {:?}", other),
    }
}

#[test]
fn cache_contract_storage_twice_passes_twice() {
    let vm = storage_fixture();
    let value = Felt::from_u64(42);
    let mut oracle = oracle_with(9, 5, 42);
    assert!(cache_contract_storage_2(&vm, &mut oracle, Felt::from_u64(9), Addr::new(2, 0), value).is_ok());
    assert!(cache_contract_storage_2(&vm, &mut oracle, Felt::from_u64(9), Addr::new(2, 0), value).is_ok());
    assert_eq!(oracle.reads, 2);
}

#[test]
fn cache_contract_storage_reads_key_from_request() {
    let vm = storage_fixture();
    let value = Felt::from_u64(42);
    let mut oracle = oracle_with(9, 6, 42);
    assert!(matches!(
        cache_contract_storage_2(&vm, &mut oracle, Felt::from_u64(9), Addr::new(2, 0), value),
        Err(SyscallHintError::OracleMiss { .. })
    ));
}

#[test]
fn cache_contract_storage_without_request_key_is_memory_error() {
    let vm = vm_with_segments(3);
    let mut oracle = oracle_with(9, 5, 42);
    assert!(matches!(
        cache_contract_storage_2(&vm, &mut oracle, Felt::from_u64(9), Addr::new(2, 0), Felt::from_u64(42)),
        Err(SyscallHintError::Memory(_))
    ));
    assert_eq!(oracle.reads, 0);
}
