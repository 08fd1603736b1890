use cairo_vm::vm::errors::hint_errors::HintError;
use cairo_vm::vm::vm_core::VirtualMachine;

use syscall_hints::addr::Addr;
use syscall_hints::dispatch::{
    hint_kind_from_code, same_text, DeprecatedSyscall, HintKind, SyscallSelector, CALL_CONTRACT,
    CHECK_NEW_DEPLOY_RESPONSE, EXIT_STORAGE_WRITE_SYSCALL, SET_SYSCALL_PTR, STORAGE_READ,
};
use syscall_hints::error::SyscallHintError;
use syscall_hints::felt::Felt;
use syscall_hints::syscalls::{
    call_contract, delegate_call, deploy, get_block_number, get_caller_address, exit_call_contract_syscall, exit_storage_write_syscall,
    os_logger_enter_syscall_preprare_exit_syscall, storage_read, ActiveHandler, DeprecatedSyscallHandler,
    SyscallEvent, SyscallTrace,
};

#[test]
fn known_codes_resolve_to_their_kind() {
    assert_eq!(hint_kind_from_code(CALL_CONTRACT).unwrap(), HintKind::Syscall(DeprecatedSyscall::CallContract));
    assert_eq!(hint_kind_from_code(STORAGE_READ).unwrap(), HintKind::Syscall(DeprecatedSyscall::StorageRead));
    assert_eq!(hint_kind_from_code(SET_SYSCALL_PTR).unwrap(), HintKind::SetSyscallPtr);
    assert_eq!(hint_kind_from_code(CHECK_NEW_DEPLOY_RESPONSE).unwrap(), HintKind::CheckNewDeployResponse);
    assert_eq!(
        hint_kind_from_code(EXIT_STORAGE_WRITE_SYSCALL).unwrap(),
        HintKind::ExitSyscall(SyscallSelector::StorageWrite)
    );
}

#[test]
fn codes_are_whitespace_significant() {
    let padded = format!(" {}", CALL_CONTRACT);
    assert!(matches!(hint_kind_from_code(&padded), Err(SyscallHintError::UnknownHint)));
    assert!(matches!(hint_kind_from_code(""), Err(SyscallHintError::UnknownHint)));
}

#[test]
fn set_syscall_ptr_code_is_dedented() {
    assert_eq!(
        SET_SYSCALL_PTR,
        "ids.os_context = segments.add()\nids.syscall_ptr = segments.add()\n\nsyscall_handler.set_syscall_ptr(syscall_ptr=ids.syscall_ptr)"
    );
}

#[test]
fn every_kind_round_trips_through_its_code() {
    let kinds = [
        HintKind::Syscall(DeprecatedSyscall::LibraryCall),
        HintKind::Syscall(DeprecatedSyscall::GetTxSignature),
        HintKind::OsLoggerEnterSyscall,
        HintKind::FetchStateEntry,
        HintKind::CacheContractStorage,
        HintKind::CheckSyscallResponse,
        HintKind::CheckNewSyscallResponse,
        HintKind::ExitSyscall(SyscallSelector::Secp256r1GetPointFromX),
        HintKind::ExitSyscall(SyscallSelector::Keccak),
    ];
    for k in kinds {
        assert_eq!(hint_kind_from_code(k.code()).unwrap(), k);
    }
}

#[test]
fn same_text_compares_bytes() {
    assert!(same_text("abc", "abc"));
    assert!(!same_text("abc", "abd"));
    assert!(!same_text("abc", "ab"));
}

#[test]
fn selector_names_follow_the_program() {
    assert_eq!(SyscallSelector::CallContract.name(), "CALL_CONTRACT_SELECTOR");
    assert_eq!(SyscallSelector::Secp256k1Mul.name(), "SECP256K1_MUL_SELECTOR");
}

#[derive(Default)]
struct Recorder {
    calls: Vec<(DeprecatedSyscall, Addr, bool)>,
}

impl DeprecatedSyscallHandler for Recorder {
    fn handle(&mut self, syscall: DeprecatedSyscall, syscall_ptr: Addr) -> Result<usize, HintError> {
        self.calls.push((syscall, syscall_ptr, false));
        Ok(3)
    }

    fn handle_in_memory(&mut self, syscall: DeprecatedSyscall, syscall_ptr: Addr, _vm: &mut VirtualMachine) -> Result<usize, HintError> {
        self.calls.push((syscall, syscall_ptr, true));
        Ok(4)
    }
}


#[test]
fn syscalls_delegate_with_the_request_pointer() {
    let mut vm = VirtualMachine::new(false, false);
    let mut h = ActiveHandler::new(Recorder::default());
    let p = Addr::new(2, 4);
    call_contract(&mut h, &mut vm, p).unwrap();
    deploy(&mut h, &mut vm, p).unwrap();
    delegate_call(&mut h, &mut vm, p).unwrap();
    storage_read(&mut h, &mut vm, p).unwrap();
    assert_eq!(h.slot.syscall_ptr(), Some(Addr::new(2, 8)));
    assert_eq!(
        h.handler.calls,
        vec![
            (DeprecatedSyscall::CallContract, Addr::new(2, 4), true),
            (DeprecatedSyscall::Deploy, Addr::new(2, 4), false),
            (DeprecatedSyscall::DelegateCall, Addr::new(2, 4), false),
            (DeprecatedSyscall::StorageRead, Addr::new(2, 4), true),
        ]
    );
}

struct Failing;

impl DeprecatedSyscallHandler for Failing {
    fn handle(&mut self, _syscall: DeprecatedSyscall, _syscall_ptr: Addr) -> Result<usize, HintError> {
        Err(HintError::CustomHint("oracle miss".into()))
    }

    fn handle_in_memory(&mut self, _syscall: DeprecatedSyscall, _syscall_ptr: Addr, _vm: &mut VirtualMachine) -> Result<usize, HintError> {
        Err(HintError::CustomHint("oracle miss".into()))
    }
}

#[test]
fn handler_failure_fails_the_hint() {
    let mut vm = VirtualMachine::new(false, false);
    let mut h = ActiveHandler::new(Failing);
    let r = get_block_number(&mut h, &mut vm, Addr::new(2, 0));
    assert!(matches!(r, Err(SyscallHintError::Hint(HintError::CustomHint(_)))));
    assert_eq!(h.slot.syscall_ptr(), None);
}

#[test]
fn served_request_moves_the_pointer_past_it() {
    let mut vm = VirtualMachine::new(false, false);
    let mut h = ActiveHandler::new(Recorder::default());
    deploy(&mut h, &mut vm, Addr::new(3, 10)).unwrap();
    assert_eq!(h.slot.syscall_ptr(), Some(Addr::new(3, 13)));
    get_caller_address(&mut h, &mut vm, Addr::new(3, 13)).unwrap();
    assert_eq!(h.slot.syscall_ptr(), Some(Addr::new(3, 17)));
}

#[test]
fn pointer_overflow_is_bad_address() {
    let mut vm = VirtualMachine::new(false, false);
    let mut h = ActiveHandler::new(Recorder::default());
    let r = deploy(&mut h, &mut vm, Addr::new(3, usize::MAX));
    assert!(matches!(r, Err(SyscallHintError::BadAddress(_))));
    assert_eq!(h.slot.syscall_ptr(), None);
}

#[test]
fn telemetry_brackets_a_syscall() {
    let vm = VirtualMachine::new(false, false);
    let mut trace = SyscallTrace::new();
    os_logger_enter_syscall_preprare_exit_syscall(&mut trace, &vm, Some(Felt::from_u64(11)), Some(Addr::new(2, 0))).unwrap();
    exit_call_contract_syscall(&mut trace).unwrap();
    assert_eq!(
        trace.events,
        vec![
            SyscallEvent::Enter {
                n_steps: 0,
                deprecated: true,
                selector: Some(Felt::from_u64(11)),
                builtin_ptrs: Some(Addr::new(2, 0)),
            },
            SyscallEvent::Exit { selector: SyscallSelector::CallContract },
        ]
    );
}

#[test]
fn telemetry_records_unknown_fields() {
    let vm = VirtualMachine::new(false, false);
    let mut trace = SyscallTrace::new();
    assert!(os_logger_enter_syscall_preprare_exit_syscall(&mut trace, &vm, None, None).is_ok());
    exit_storage_write_syscall(&mut trace).unwrap();
    assert_eq!(trace.events.len(), 2);
    assert!(matches!(trace.events[0], SyscallEvent::Enter { selector: None, builtin_ptrs: None, .. }));
}
