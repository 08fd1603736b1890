use cairo_vm::types::relocatable::Relocatable;
use cairo_vm::vm::vm_core::VirtualMachine;
use cairo_vm::Felt252;

use syscall_hints::addr::{Addr, AddressFault, Cell};
use syscall_hints::error::{Mismatch, SyscallHintError};
use syscall_hints::felt::Felt;
use syscall_hints::response::{
    assert_memory_ranges_equal, check_new_deploy_response, check_new_syscall_response,
    check_syscall_response, verify_response, ResponseEnvelope,
};

fn put_ints(vm: &mut VirtualMachine, seg: isize, off: usize, values: &[u64]) {
    for (i, v) in values.iter().enumerate() {
        vm.insert_value(Relocatable::from((seg, off + i)), Felt252::from(*v)).unwrap();
    }
}

fn put_ptr(vm: &mut VirtualMachine, at: (isize, usize), to: (isize, usize)) {
    vm.insert_value(Relocatable::from(at), Relocatable::from(to)).unwrap();
}

fn vm_with_segments(n: usize) -> VirtualMachine {
    let mut vm = VirtualMachine::new(false, false);
    for _ in 0..n {
        vm.add_memory_segment();
    }
    vm
}

fn int_cell(v: u64) -> Option<Cell> {
    Some(Cell::Int(Felt::from_u64(v)))
}

#[test]
fn equal_ranges_pass() {
    let mut vm = vm_with_segments(2);
    put_ints(&mut vm, 0, 0, &[1, 2, 3]);
    put_ints(&mut vm, 1, 0, &[1, 2, 3]);
    assert!(assert_memory_ranges_equal(&vm, Addr::new(0, 0), 3, Addr::new(1, 0), 3).is_ok());
}

#[test]
fn differing_element_fails_with_both_runs() {
    let mut vm = vm_with_segments(2);
    put_ints(&mut vm, 0, 0, &[1, 2, 3]);
    put_ints(&mut vm, 1, 0, &[1, 2, 4]);
    match assert_memory_ranges_equal(&vm, Addr::new(0, 0), 3, Addr::new(1, 0), 3) {
        Err(SyscallHintError::Inconsistency(Mismatch::ReturnData { expected, actual })) => {
            assert_eq!(expected, vec![int_cell(1), int_cell(2), int_cell(3)]);
            assert_eq!(actual, vec![int_cell(1), int_cell(2), int_cell(4)]);
        }
        other => panic!("unexpected {:?}", other),
    }
}

#[test]
fn differing_length_fails() {
    let mut vm = vm_with_segments(2);
    put_ints(&mut vm, 0, 0, &[1, 2, 3]);
    put_ints(&mut vm, 1, 0, &[1, 2, 3]);
    match assert_memory_ranges_equal(&vm, Addr::new(0, 0), 3, Addr::new(1, 0), 2) {
        Err(SyscallHintError::Inconsistency(Mismatch::ReturnData { expected, actual })) => {
            assert_eq!(expected.len(), 3);
            assert_eq!(actual.len(), 2);
        }
        other => panic!("unexpected {:?}", other),
    }
}

#[test]
fn empty_ranges_pass() {
    let vm = vm_with_segments(2);
    assert!(assert_memory_ranges_equal(&vm, Addr::new(0, 0), 0, Addr::new(1, 5), 0).is_ok());
}

#[test]
fn missing_cells_compare_as_missing() {
    let mut vm = vm_with_segments(2);
    put_ints(&mut vm, 0, 0, &[1]);
    put_ints(&mut vm, 1, 0, &[1]);
    assert!(assert_memory_ranges_equal(&vm, Addr::new(0, 0), 2, Addr::new(1, 0), 2).is_ok());
}

#[test]
fn ranged_envelope_with_end_before_start_is_bad_address() {
    let vm = vm_with_segments(2);
    let env = ResponseEnvelope::Ranged { start: Addr::new(0, 3), end: Addr::new(0, 1) };
    match verify_response(&vm, &env, Addr::new(1, 0), Felt::from_u64(0)) {
        Err(SyscallHintError::BadAddress(AddressFault::NegativeDistance { .. })) => {}
        other => panic!("unexpected {:?}", other),
    }
}

#[test]
fn legacy_envelope_with_huge_size_is_bad_address() {
    let vm = vm_with_segments(2);
    let size = Felt { d0: 0, d1: 0, d2: 1, d3: 0 };
    let env = ResponseEnvelope::Legacy { retdata: Addr::new(0, 0), retdata_size: size };
    match verify_response(&vm, &env, Addr::new(1, 0), Felt::from_u64(0)) {
        Err(SyscallHintError::BadAddress(AddressFault::NotAUsize { value })) => assert_eq!(value, size),
        other => panic!("unexpected {:?}", other),
    }
}

/// Segment 0: the expected data; 1: the program's data; 2: a legacy response
/// (size, pointer); 3: a current response (start, end).
fn vm_with_both_envelopes(actual: &[u64]) -> VirtualMachine {
    let mut vm = vm_with_segments(4);
    put_ints(&mut vm, 0, 0, &[10, 20, 30]);
    put_ints(&mut vm, 1, 0, actual);
    put_ints(&mut vm, 2, 0, &[3]);
    put_ptr(&mut vm, (2, 1), (0, 0));
    put_ptr(&mut vm, (3, 0), (0, 0));
    put_ptr(&mut vm, (3, 1), (0, 3));
    vm
}

#[test]
fn both_encodings_pass_on_matching_data() {
    let vm = vm_with_both_envelopes(&[10, 20, 30]);
    let size = Felt::from_u64(3);
    assert!(check_syscall_response(&vm, Addr::new(2, 0), Addr::new(1, 0), size).is_ok());
    assert!(check_new_syscall_response(&vm, Addr::new(3, 0), Addr::new(1, 0), size).is_ok());
}

#[test]
fn both_encodings_fail_on_differing_data() {
    let vm = vm_with_both_envelopes(&[10, 20, 31]);
    let size = Felt::from_u64(3);
    assert!(check_syscall_response(&vm, Addr::new(2, 0), Addr::new(1, 0), size).is_err());
    assert!(check_new_syscall_response(&vm, Addr::new(3, 0), Addr::new(1, 0), size).is_err());
}

#[test]
fn deploy_response_uses_constructor_retdata() {
    let mut vm = vm_with_segments(3);
    put_ints(&mut vm, 0, 0, &[7, 8]);
    put_ints(&mut vm, 1, 0, &[7, 8]);
    put_ints(&mut vm, 2, 0, &[999]);
    put_ptr(&mut vm, (2, 1), (0, 0));
    put_ptr(&mut vm, (2, 2), (0, 2));
    assert!(check_new_deploy_response(&vm, Addr::new(2, 0), Addr::new(1, 0), Felt::from_u64(2)).is_ok());
    assert!(check_new_deploy_response(&vm, Addr::new(2, 0), Addr::new(1, 0), Felt::from_u64(1)).is_err());
}

#[test]
fn missing_response_field_is_memory_error() {
    let vm = vm_with_segments(3);
    match check_syscall_response(&vm, Addr::new(2, 0), Addr::new(1, 0), Felt::from_u64(0)) {
        Err(SyscallHintError::Memory(_)) => {}
        other => panic!("unexpected {:?}", other),
    }
}

#[test]
fn ranged_check_across_segments_is_bad_address() {
    let mut vm = vm_with_segments(3);
    put_ptr(&mut vm, (2, 0), (0, 0));
    put_ptr(&mut vm, (2, 1), (1, 3));
    assert!(matches!(
        check_new_syscall_response(&vm, Addr::new(2, 0), Addr::new(1, 0), Felt::from_u64(3)),
        Err(SyscallHintError::BadAddress(AddressFault::DifferentSegments { .. }))
    ));
}

#[test]
fn deploy_check_mismatch_carries_both_runs() {
    let mut vm = vm_with_segments(3);
    put_ints(&mut vm, 0, 0, &[7, 8]);
    put_ints(&mut vm, 1, 0, &[7, 9]);
    put_ptr(&mut vm, (2, 1), (0, 0));
    put_ptr(&mut vm, (2, 2), (0, 2));
    match check_new_deploy_response(&vm, Addr::new(2, 0), Addr::new(1, 0), Felt::from_u64(2)) {
        Err(SyscallHintError::Inconsistency(Mismatch::ReturnData { expected, actual })) => {
            assert_eq!(expected, vec![int_cell(7), int_cell(8)]);
            assert_eq!(actual, vec![int_cell(7), int_cell(9)]);
        }
        other => panic!("unexpected {:?}", other),
    }
}
