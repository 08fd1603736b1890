//! The dispatch table: the exact hint codes of the OS program's syscall
//! hints, resolved once to a closed set of kinds.
use vstd::prelude::*;
use vstd::string::StringSliceAdditionalSpecFns;

use crate::error::SyscallHintError;

verus! {
pub const CALL_CONTRACT: &'static str = "syscall_handler.call_contract(segments=segments, syscall_ptr=ids.syscall_ptr)";
pub const DELEGATE_CALL: &'static str = "syscall_handler.delegate_call(segments=segments, syscall_ptr=ids.syscall_ptr)";
pub const DELEGATE_L1_HANDLER: &'static str = "syscall_handler.delegate_l1_handler(segments=segments, syscall_ptr=ids.syscall_ptr)";
pub const DEPLOY: &'static str = "syscall_handler.deploy(segments=segments, syscall_ptr=ids.syscall_ptr)";
pub const EMIT_EVENT: &'static str = "syscall_handler.emit_event(segments=segments, syscall_ptr=ids.syscall_ptr)";
pub const GET_BLOCK_NUMBER: &'static str = "syscall_handler.get_block_number(segments=segments, syscall_ptr=ids.syscall_ptr)";
pub const GET_BLOCK_TIMESTAMP: &'static str = "syscall_handler.get_block_timestamp(segments=segments, syscall_ptr=ids.syscall_ptr)";
pub const GET_CALLER_ADDRESS: &'static str = "syscall_handler.get_caller_address(segments=segments, syscall_ptr=ids.syscall_ptr)";
pub const GET_CONTRACT_ADDRESS: &'static str = "syscall_handler.get_contract_address(segments=segments, syscall_ptr=ids.syscall_ptr)";
pub const GET_SEQUENCER_ADDRESS: &'static str = "syscall_handler.get_sequencer_address(segments=segments, syscall_ptr=ids.syscall_ptr)";
pub const GET_TX_INFO: &'static str = "syscall_handler.get_tx_info(segments=segments, syscall_ptr=ids.syscall_ptr)";
pub const GET_TX_SIGNATURE: &'static str = "syscall_handler.get_tx_signature(segments=segments, syscall_ptr=ids.syscall_ptr)";
pub const LIBRARY: &'static str = "syscall_handler.library_call(segments=segments, syscall_ptr=ids.syscall_ptr)";
pub const LIBRARY_CALL_L1_HANDLER: &'static str = "syscall_handler.library_call_l1_handler(segments=segments, syscall_ptr=ids.syscall_ptr)";
pub const REPLACE_CLASS: &'static str = "syscall_handler.replace_class(segments=segments, syscall_ptr=ids.syscall_ptr)";
pub const SEND_MESSAGE_TO_L1: &'static str = "syscall_handler.send_message_to_l1(segments=segments, syscall_ptr=ids.syscall_ptr)";
pub const STORAGE_READ: &'static str = "syscall_handler.storage_read(segments=segments, syscall_ptr=ids.syscall_ptr)";
pub const STORAGE_WRITE: &'static str = "syscall_handler.storage_write(segments=segments, syscall_ptr=ids.syscall_ptr)";
pub const SET_SYSCALL_PTR: &'static str = "ids.os_context = segments.add()\nids.syscall_ptr = segments.add()\n\nsyscall_handler.set_syscall_ptr(syscall_ptr=ids.syscall_ptr)";
pub const OS_LOGGER_ENTER_SYSCALL_PREPRARE_EXIT_SYSCALL: &'static str = "execution_helper.os_logger.enter_syscall(\n    n_steps=current_step,\n    builtin_ptrs=ids.builtin_ptrs,\n    deprecated=True,\n    selector=ids.selector,\n    range_check_ptr=ids.range_check_ptr,\n)\n\n# Prepare a short callable to save code duplication.\nexit_syscall = lambda selector: execution_helper.os_logger.exit_syscall(\n    n_steps=current_step,\n    builtin_ptrs=ids.builtin_ptrs,\n    range_check_ptr=ids.range_check_ptr,\n    selector=selector,\n)";
pub const FETCH_STATE_ENTRY_5: &'static str = "# Fetch a state_entry in this hint and validate it in the update that comes next.\nids.state_entry = __dict_manager.get_dict(ids.contract_state_changes)[\n    ids.contract_address\n]\n\nids.new_state_entry = segments.add()";
pub const CACHE_CONTRACT_STORAGE_2: &'static str = "# Make sure the value is cached (by reading it), to be used later on for the\n# commitment computation.\nvalue = execution_helper.storage_by_address[ids.contract_address].read(\n    key=ids.syscall_ptr.request.address\n)\nassert ids.value == value, \"Inconsistent storage value.\"";
pub const CHECK_SYSCALL_RESPONSE: &'static str = "# Check that the actual return value matches the expected one.\nexpected = memory.get_range(\n    addr=ids.call_response.retdata, size=ids.call_response.retdata_size\n)\nactual = memory.get_range(addr=ids.retdata, size=ids.retdata_size)\n\nassert expected == actual, f'Return value mismatch expected={expected}, actual={actual}.'";
pub const CHECK_NEW_SYSCALL_RESPONSE: &'static str = "# Check that the actual return value matches the expected one.\nexpected = memory.get_range(\n    addr=ids.response.retdata_start,\n    size=ids.response.retdata_end - ids.response.retdata_start,\n)\nactual = memory.get_range(addr=ids.retdata, size=ids.retdata_size)\n\nassert expected == actual, f'Return value mismatch; expected={expected}, actual={actual}.'";
pub const CHECK_NEW_DEPLOY_RESPONSE: &'static str = "# Check that the actual return value matches the expected one.\nexpected = memory.get_range(\n    addr=ids.response.constructor_retdata_start,\n    size=ids.response.constructor_retdata_end - ids.response.constructor_retdata_start,\n)\nactual = memory.get_range(addr=ids.retdata, size=ids.retdata_size)\nassert expected == actual, f'Return value mismatch; expected={expected}, actual={actual}.'";
pub const EXIT_CALL_CONTRACT_SYSCALL: &'static str = "exit_syscall(selector=ids.CALL_CONTRACT_SELECTOR)";
pub const EXIT_DELEGATE_CALL_SYSCALL: &'static str = "exit_syscall(selector=ids.DELEGATE_CALL_SELECTOR)";
pub const EXIT_DELEGATE_L1_HANDLER_SYSCALL: &'static str = "exit_syscall(selector=ids.DELEGATE_L1_HANDLER_SELECTOR)";
pub const EXIT_DEPLOY_SYSCALL: &'static str = "exit_syscall(selector=ids.DEPLOY_SELECTOR)";
pub const EXIT_EMIT_EVENT_SYSCALL: &'static str = "exit_syscall(selector=ids.EMIT_EVENT_SELECTOR)";
pub const EXIT_GET_BLOCK_HASH_SYSCALL: &'static str = "exit_syscall(selector=ids.GET_BLOCK_HASH_SELECTOR)";
pub const EXIT_GET_BLOCK_TIMESTAMP_SYSCALL: &'static str = "exit_syscall(selector=ids.GET_BLOCK_TIMESTAMP_SELECTOR)";
pub const EXIT_GET_CALLER_ADDRESS_SYSCALL: &'static str = "exit_syscall(selector=ids.GET_CALLER_ADDRESS_SELECTOR)";
pub const EXIT_GET_CONTRACT_ADDRESS_SYSCALL: &'static str = "exit_syscall(selector=ids.GET_CONTRACT_ADDRESS_SELECTOR)";
pub const EXIT_GET_EXECUTION_INFO_SYSCALL: &'static str = "exit_syscall(selector=ids.GET_EXECUTION_INFO_SELECTOR)";
pub const EXIT_GET_SEQUENCER_ADDRESS_SYSCALL: &'static str = "exit_syscall(selector=ids.GET_SEQUENCER_ADDRESS_SELECTOR)";
pub const EXIT_GET_TX_INFO_SYSCALL: &'static str = "exit_syscall(selector=ids.GET_TX_INFO_SELECTOR)";
pub const EXIT_GET_TX_SIGNATURE_SYSCALL: &'static str = "exit_syscall(selector=ids.GET_TX_SIGNATURE_SELECTOR)";
pub const EXIT_KECCAK_SYSCALL: &'static str = "exit_syscall(selector=ids.KECCAK_SELECTOR)";
pub const EXIT_LIBRARY_CALL_L1_HANDLER_SYSCALL: &'static str = "exit_syscall(selector=ids.LIBRARY_CALL_L1_HANDLER_SELECTOR)";
pub const EXIT_LIBRARY_CALL_SYSCALL: &'static str = "exit_syscall(selector=ids.LIBRARY_CALL_SELECTOR)";
pub const EXIT_REPLACE_CLASS_SYSCALL: &'static str = "exit_syscall(selector=ids.REPLACE_CLASS_SELECTOR)";
pub const EXIT_SECP256K1_ADD_SYSCALL: &'static str = "exit_syscall(selector=ids.SECP256K1_ADD_SELECTOR)";
pub const EXIT_SECP256K1_GET_POINT_FROM_X_SYSCALL: &'static str = "exit_syscall(selector=ids.SECP256K1_GET_POINT_FROM_X_SELECTOR)";
pub const EXIT_SECP256K1_GET_XY_SYSCALL: &'static str = "exit_syscall(selector=ids.SECP256K1_GET_XY_SELECTOR)";
pub const EXIT_SECP256K1_MUL_SYSCALL: &'static str = "exit_syscall(selector=ids.SECP256K1_MUL_SELECTOR)";
pub const EXIT_SECP256K1_NEW_SYSCALL: &'static str = "exit_syscall(selector=ids.SECP256K1_NEW_SELECTOR)";
pub const EXIT_SECP256R1_ADD_SYSCALL: &'static str = "exit_syscall(selector=ids.SECP256R1_ADD_SELECTOR)";
pub const EXIT_SECP256R1_GET_POINT_FROM_X_SYSCALL: &'static str = "exit_syscall(selector=ids.SECP256R1_GET_POINT_FROM_X_SELECTOR)";
pub const EXIT_SECP256R1_GET_XY_SYSCALL: &'static str = "exit_syscall(selector=ids.SECP256R1_GET_XY_SELECTOR)";
pub const EXIT_SECP256R1_MUL_SYSCALL: &'static str = "exit_syscall(selector=ids.SECP256R1_MUL_SELECTOR)";
pub const EXIT_SECP256R1_NEW_SYSCALL: &'static str = "exit_syscall(selector=ids.SECP256R1_NEW_SELECTOR)";
pub const EXIT_SEND_MESSAGE_TO_L1_SYSCALL: &'static str = "exit_syscall(selector=ids.SEND_MESSAGE_TO_L1_SELECTOR)";
pub const EXIT_STORAGE_READ_SYSCALL: &'static str = "exit_syscall(selector=ids.STORAGE_READ_SELECTOR)";
pub const EXIT_STORAGE_WRITE_SYSCALL: &'static str = "exit_syscall(selector=ids.STORAGE_WRITE_SELECTOR)";

/// The legacy syscalls whose requests the active handler serves.
#[derive(Clone, Copy, Debug, PartialEq, Eq, Structural)]
pub enum DeprecatedSyscall {
    CallContract,
    DelegateCall,
    DelegateL1Handler,
    Deploy,
    EmitEvent,
    GetBlockNumber,
    GetBlockTimestamp,
    GetCallerAddress,
    GetContractAddress,
    GetSequencerAddress,
    GetTxInfo,
    GetTxSignature,
    LibraryCall,
    LibraryCallL1Handler,
    ReplaceClass,
    SendMessageToL1,
    StorageRead,
    StorageWrite,
}

impl DeprecatedSyscall {
    /// Whether the handler's method writes its response into VM memory itself,
    /// and so is handed the VM.
    pub open spec fn spec_writes_memory(self) -> bool {
        self == DeprecatedSyscall::CallContract || self == DeprecatedSyscall::GetCallerAddress
            || self == DeprecatedSyscall::StorageRead
    }

    pub fn writes_memory(&self) -> (r: bool)
        ensures
            r == self.spec_writes_memory(),
    {
        match self {
            DeprecatedSyscall::CallContract => true,
            DeprecatedSyscall::GetCallerAddress => true,
            DeprecatedSyscall::StorageRead => true,
            _ => false,
        }
    }
}

/// The selectors whose syscalls the telemetry brackets.
#[derive(Clone, Copy, Debug, PartialEq, Eq, Structural)]
pub enum SyscallSelector {
    CallContract,
    DelegateCall,
    DelegateL1Handler,
    Deploy,
    EmitEvent,
    GetBlockHash,
    GetBlockTimestamp,
    GetCallerAddress,
    GetContractAddress,
    GetExecutionInfo,
    GetSequencerAddress,
    GetTxInfo,
    GetTxSignature,
    Keccak,
    LibraryCallL1Handler,
    LibraryCall,
    ReplaceClass,
    Secp256k1Add,
    Secp256k1GetPointFromX,
    Secp256k1GetXy,
    Secp256k1Mul,
    Secp256k1New,
    Secp256r1Add,
    Secp256r1GetPointFromX,
    Secp256r1GetXy,
    Secp256r1Mul,
    Secp256r1New,
    SendMessageToL1,
    StorageRead,
    StorageWrite,
}

impl SyscallSelector {
    /// The bytes of the selector's constant name in the OS program.
    pub open spec fn spec_name(self) -> Seq<u8> {
        match self {
            SyscallSelector::CallContract => "CALL_CONTRACT_SELECTOR".spec_bytes(),
            SyscallSelector::DelegateCall => "DELEGATE_CALL_SELECTOR".spec_bytes(),
            SyscallSelector::DelegateL1Handler => "DELEGATE_L1_HANDLER_SELECTOR".spec_bytes(),
            SyscallSelector::Deploy => "DEPLOY_SELECTOR".spec_bytes(),
            SyscallSelector::EmitEvent => "EMIT_EVENT_SELECTOR".spec_bytes(),
            SyscallSelector::GetBlockHash => "GET_BLOCK_HASH_SELECTOR".spec_bytes(),
            SyscallSelector::GetBlockTimestamp => "GET_BLOCK_TIMESTAMP_SELECTOR".spec_bytes(),
            SyscallSelector::GetCallerAddress => "GET_CALLER_ADDRESS_SELECTOR".spec_bytes(),
            SyscallSelector::GetContractAddress => "GET_CONTRACT_ADDRESS_SELECTOR".spec_bytes(),
            SyscallSelector::GetExecutionInfo => "GET_EXECUTION_INFO_SELECTOR".spec_bytes(),
            SyscallSelector::GetSequencerAddress => "GET_SEQUENCER_ADDRESS_SELECTOR".spec_bytes(),
            SyscallSelector::GetTxInfo => "GET_TX_INFO_SELECTOR".spec_bytes(),
            SyscallSelector::GetTxSignature => "GET_TX_SIGNATURE_SELECTOR".spec_bytes(),
            SyscallSelector::Keccak => "KECCAK_SELECTOR".spec_bytes(),
            SyscallSelector::LibraryCallL1Handler => "LIBRARY_CALL_L1_HANDLER_SELECTOR".spec_bytes(),
            SyscallSelector::LibraryCall => "LIBRARY_CALL_SELECTOR".spec_bytes(),
            SyscallSelector::ReplaceClass => "REPLACE_CLASS_SELECTOR".spec_bytes(),
            SyscallSelector::Secp256k1Add => "SECP256K1_ADD_SELECTOR".spec_bytes(),
            SyscallSelector::Secp256k1GetPointFromX => "SECP256K1_GET_POINT_FROM_X_SELECTOR".spec_bytes(),
            SyscallSelector::Secp256k1GetXy => "SECP256K1_GET_XY_SELECTOR".spec_bytes(),
            SyscallSelector::Secp256k1Mul => "SECP256K1_MUL_SELECTOR".spec_bytes(),
            SyscallSelector::Secp256k1New => "SECP256K1_NEW_SELECTOR".spec_bytes(),
            SyscallSelector::Secp256r1Add => "SECP256R1_ADD_SELECTOR".spec_bytes(),
            SyscallSelector::Secp256r1GetPointFromX => "SECP256R1_GET_POINT_FROM_X_SELECTOR".spec_bytes(),
            SyscallSelector::Secp256r1GetXy => "SECP256R1_GET_XY_SELECTOR".spec_bytes(),
            SyscallSelector::Secp256r1Mul => "SECP256R1_MUL_SELECTOR".spec_bytes(),
            SyscallSelector::Secp256r1New => "SECP256R1_NEW_SELECTOR".spec_bytes(),
            SyscallSelector::SendMessageToL1 => "SEND_MESSAGE_TO_L1_SELECTOR".spec_bytes(),
            SyscallSelector::StorageRead => "STORAGE_READ_SELECTOR".spec_bytes(),
            SyscallSelector::StorageWrite => "STORAGE_WRITE_SELECTOR".spec_bytes(),
        }
    }

    /// The selector's constant name in the OS program.
    pub fn name(&self) -> (r: &'static str)
        ensures
            r.spec_bytes() == self.spec_name(),
    {
        match self {
            SyscallSelector::CallContract => "CALL_CONTRACT_SELECTOR",
            SyscallSelector::DelegateCall => "DELEGATE_CALL_SELECTOR",
            SyscallSelector::DelegateL1Handler => "DELEGATE_L1_HANDLER_SELECTOR",
            SyscallSelector::Deploy => "DEPLOY_SELECTOR",
            SyscallSelector::EmitEvent => "EMIT_EVENT_SELECTOR",
            SyscallSelector::GetBlockHash => "GET_BLOCK_HASH_SELECTOR",
            SyscallSelector::GetBlockTimestamp => "GET_BLOCK_TIMESTAMP_SELECTOR",
            SyscallSelector::GetCallerAddress => "GET_CALLER_ADDRESS_SELECTOR",
            SyscallSelector::GetContractAddress => "GET_CONTRACT_ADDRESS_SELECTOR",
            SyscallSelector::GetExecutionInfo => "GET_EXECUTION_INFO_SELECTOR",
            SyscallSelector::GetSequencerAddress => "GET_SEQUENCER_ADDRESS_SELECTOR",
            SyscallSelector::GetTxInfo => "GET_TX_INFO_SELECTOR",
            SyscallSelector::GetTxSignature => "GET_TX_SIGNATURE_SELECTOR",
            SyscallSelector::Keccak => "KECCAK_SELECTOR",
            SyscallSelector::LibraryCallL1Handler => "LIBRARY_CALL_L1_HANDLER_SELECTOR",
            SyscallSelector::LibraryCall => "LIBRARY_CALL_SELECTOR",
            SyscallSelector::ReplaceClass => "REPLACE_CLASS_SELECTOR",
            SyscallSelector::Secp256k1Add => "SECP256K1_ADD_SELECTOR",
            SyscallSelector::Secp256k1GetPointFromX => "SECP256K1_GET_POINT_FROM_X_SELECTOR",
            SyscallSelector::Secp256k1GetXy => "SECP256K1_GET_XY_SELECTOR",
            SyscallSelector::Secp256k1Mul => "SECP256K1_MUL_SELECTOR",
            SyscallSelector::Secp256k1New => "SECP256K1_NEW_SELECTOR",
            SyscallSelector::Secp256r1Add => "SECP256R1_ADD_SELECTOR",
            SyscallSelector::Secp256r1GetPointFromX => "SECP256R1_GET_POINT_FROM_X_SELECTOR",
            SyscallSelector::Secp256r1GetXy => "SECP256R1_GET_XY_SELECTOR",
            SyscallSelector::Secp256r1Mul => "SECP256R1_MUL_SELECTOR",
            SyscallSelector::Secp256r1New => "SECP256R1_NEW_SELECTOR",
            SyscallSelector::SendMessageToL1 => "SEND_MESSAGE_TO_L1_SELECTOR",
            SyscallSelector::StorageRead => "STORAGE_READ_SELECTOR",
            SyscallSelector::StorageWrite => "STORAGE_WRITE_SELECTOR",
        }
    }
}

/// Every syscall hint of the OS program that this layer serves.
#[derive(Clone, Copy, Debug, PartialEq, Eq, Structural)]
pub enum HintKind {
    Syscall(DeprecatedSyscall),
    SetSyscallPtr,
    OsLoggerEnterSyscall,
    FetchStateEntry,
    CacheContractStorage,
    CheckSyscallResponse,
    CheckNewSyscallResponse,
    CheckNewDeployResponse,
    ExitSyscall(SyscallSelector),
}

impl HintKind {
    /// The bytes of the hint's code.
    pub open spec fn spec_code(self) -> Seq<u8> {
        match self {
            HintKind::Syscall(s) => s.spec_code(),
            HintKind::ExitSyscall(x) => x.spec_code(),
            HintKind::SetSyscallPtr => SET_SYSCALL_PTR.spec_bytes(),
            HintKind::OsLoggerEnterSyscall => OS_LOGGER_ENTER_SYSCALL_PREPRARE_EXIT_SYSCALL.spec_bytes(),
            HintKind::FetchStateEntry => FETCH_STATE_ENTRY_5.spec_bytes(),
            HintKind::CacheContractStorage => CACHE_CONTRACT_STORAGE_2.spec_bytes(),
            HintKind::CheckSyscallResponse => CHECK_SYSCALL_RESPONSE.spec_bytes(),
            HintKind::CheckNewSyscallResponse => CHECK_NEW_SYSCALL_RESPONSE.spec_bytes(),
            HintKind::CheckNewDeployResponse => CHECK_NEW_DEPLOY_RESPONSE.spec_bytes(),
        }
    }

    /// The hint's code, as the OS program carries it.
    pub fn code(&self) -> (r: &'static str)
        ensures
            r.spec_bytes() == self.spec_code(),
    {
        match self {
            HintKind::Syscall(DeprecatedSyscall::CallContract) => CALL_CONTRACT,
            HintKind::Syscall(DeprecatedSyscall::DelegateCall) => DELEGATE_CALL,
            HintKind::Syscall(DeprecatedSyscall::DelegateL1Handler) => DELEGATE_L1_HANDLER,
            HintKind::Syscall(DeprecatedSyscall::Deploy) => DEPLOY,
            HintKind::Syscall(DeprecatedSyscall::EmitEvent) => EMIT_EVENT,
            HintKind::Syscall(DeprecatedSyscall::GetBlockNumber) => GET_BLOCK_NUMBER,
            HintKind::Syscall(DeprecatedSyscall::GetBlockTimestamp) => GET_BLOCK_TIMESTAMP,
            HintKind::Syscall(DeprecatedSyscall::GetCallerAddress) => GET_CALLER_ADDRESS,
            HintKind::Syscall(DeprecatedSyscall::GetContractAddress) => GET_CONTRACT_ADDRESS,
            HintKind::Syscall(DeprecatedSyscall::GetSequencerAddress) => GET_SEQUENCER_ADDRESS,
            HintKind::Syscall(DeprecatedSyscall::GetTxInfo) => GET_TX_INFO,
            HintKind::Syscall(DeprecatedSyscall::GetTxSignature) => GET_TX_SIGNATURE,
            HintKind::Syscall(DeprecatedSyscall::LibraryCall) => LIBRARY,
            HintKind::Syscall(DeprecatedSyscall::LibraryCallL1Handler) => LIBRARY_CALL_L1_HANDLER,
            HintKind::Syscall(DeprecatedSyscall::ReplaceClass) => REPLACE_CLASS,
            HintKind::Syscall(DeprecatedSyscall::SendMessageToL1) => SEND_MESSAGE_TO_L1,
            HintKind::Syscall(DeprecatedSyscall::StorageRead) => STORAGE_READ,
            HintKind::Syscall(DeprecatedSyscall::StorageWrite) => STORAGE_WRITE,
            HintKind::SetSyscallPtr => SET_SYSCALL_PTR,
            HintKind::OsLoggerEnterSyscall => OS_LOGGER_ENTER_SYSCALL_PREPRARE_EXIT_SYSCALL,
            HintKind::FetchStateEntry => FETCH_STATE_ENTRY_5,
            HintKind::CacheContractStorage => CACHE_CONTRACT_STORAGE_2,
            HintKind::CheckSyscallResponse => CHECK_SYSCALL_RESPONSE,
            HintKind::CheckNewSyscallResponse => CHECK_NEW_SYSCALL_RESPONSE,
            HintKind::CheckNewDeployResponse => CHECK_NEW_DEPLOY_RESPONSE,
            HintKind::ExitSyscall(SyscallSelector::CallContract) => EXIT_CALL_CONTRACT_SYSCALL,
            HintKind::ExitSyscall(SyscallSelector::DelegateCall) => EXIT_DELEGATE_CALL_SYSCALL,
            HintKind::ExitSyscall(SyscallSelector::DelegateL1Handler) => EXIT_DELEGATE_L1_HANDLER_SYSCALL,
            HintKind::ExitSyscall(SyscallSelector::Deploy) => EXIT_DEPLOY_SYSCALL,
            HintKind::ExitSyscall(SyscallSelector::EmitEvent) => EXIT_EMIT_EVENT_SYSCALL,
            HintKind::ExitSyscall(SyscallSelector::GetBlockHash) => EXIT_GET_BLOCK_HASH_SYSCALL,
            HintKind::ExitSyscall(SyscallSelector::GetBlockTimestamp) => EXIT_GET_BLOCK_TIMESTAMP_SYSCALL,
            HintKind::ExitSyscall(SyscallSelector::GetCallerAddress) => EXIT_GET_CALLER_ADDRESS_SYSCALL,
            HintKind::ExitSyscall(SyscallSelector::GetContractAddress) => EXIT_GET_CONTRACT_ADDRESS_SYSCALL,
            HintKind::ExitSyscall(SyscallSelector::GetExecutionInfo) => EXIT_GET_EXECUTION_INFO_SYSCALL,
            HintKind::ExitSyscall(SyscallSelector::GetSequencerAddress) => EXIT_GET_SEQUENCER_ADDRESS_SYSCALL,
            HintKind::ExitSyscall(SyscallSelector::GetTxInfo) => EXIT_GET_TX_INFO_SYSCALL,
            HintKind::ExitSyscall(SyscallSelector::GetTxSignature) => EXIT_GET_TX_SIGNATURE_SYSCALL,
            HintKind::ExitSyscall(SyscallSelector::Keccak) => EXIT_KECCAK_SYSCALL,
            HintKind::ExitSyscall(SyscallSelector::LibraryCallL1Handler) => EXIT_LIBRARY_CALL_L1_HANDLER_SYSCALL,
            HintKind::ExitSyscall(SyscallSelector::LibraryCall) => EXIT_LIBRARY_CALL_SYSCALL,
            HintKind::ExitSyscall(SyscallSelector::ReplaceClass) => EXIT_REPLACE_CLASS_SYSCALL,
            HintKind::ExitSyscall(SyscallSelector::Secp256k1Add) => EXIT_SECP256K1_ADD_SYSCALL,
            HintKind::ExitSyscall(SyscallSelector::Secp256k1GetPointFromX) => EXIT_SECP256K1_GET_POINT_FROM_X_SYSCALL,
            HintKind::ExitSyscall(SyscallSelector::Secp256k1GetXy) => EXIT_SECP256K1_GET_XY_SYSCALL,
            HintKind::ExitSyscall(SyscallSelector::Secp256k1Mul) => EXIT_SECP256K1_MUL_SYSCALL,
            HintKind::ExitSyscall(SyscallSelector::Secp256k1New) => EXIT_SECP256K1_NEW_SYSCALL,
            HintKind::ExitSyscall(SyscallSelector::Secp256r1Add) => EXIT_SECP256R1_ADD_SYSCALL,
            HintKind::ExitSyscall(SyscallSelector::Secp256r1GetPointFromX) => EXIT_SECP256R1_GET_POINT_FROM_X_SYSCALL,
            HintKind::ExitSyscall(SyscallSelector::Secp256r1GetXy) => EXIT_SECP256R1_GET_XY_SYSCALL,
            HintKind::ExitSyscall(SyscallSelector::Secp256r1Mul) => EXIT_SECP256R1_MUL_SYSCALL,
            HintKind::ExitSyscall(SyscallSelector::Secp256r1New) => EXIT_SECP256R1_NEW_SYSCALL,
            HintKind::ExitSyscall(SyscallSelector::SendMessageToL1) => EXIT_SEND_MESSAGE_TO_L1_SYSCALL,
            HintKind::ExitSyscall(SyscallSelector::StorageRead) => EXIT_STORAGE_READ_SYSCALL,
            HintKind::ExitSyscall(SyscallSelector::StorageWrite) => EXIT_STORAGE_WRITE_SYSCALL,
        }
    }
}

/// Whether two texts are the same bytes.
pub fn same_text(a: &str, b: &str) -> (r: bool)
    ensures
        r == (a.spec_bytes() == b.spec_bytes()),
{
    let x = a.as_bytes();
    let y = b.as_bytes();
    if x.len() != y.len() {
        return false;
    }
    let mut i: usize = 0;
    while i < x.len()
        invariant
            x@ == a.spec_bytes(),
            y@ == b.spec_bytes(),
            x@.len() == y@.len(),
            i <= x@.len(),
            forall|j: int| 0 <= j < i ==> x@[j] == y@[j],
        decreases x@.len() - i,
    {
        if x[i] != y[i] {
            return false;
        }
        i = i + 1;
    }
    assert(x@ =~= y@);
    true
}

impl DeprecatedSyscall {
    /// The bytes of the code of this kind's hint.
    pub open spec fn spec_code(self) -> Seq<u8> {
        match self {
            DeprecatedSyscall::CallContract => CALL_CONTRACT.spec_bytes(),
            DeprecatedSyscall::DelegateCall => DELEGATE_CALL.spec_bytes(),
            DeprecatedSyscall::DelegateL1Handler => DELEGATE_L1_HANDLER.spec_bytes(),
            DeprecatedSyscall::Deploy => DEPLOY.spec_bytes(),
            DeprecatedSyscall::EmitEvent => EMIT_EVENT.spec_bytes(),
            DeprecatedSyscall::GetBlockNumber => GET_BLOCK_NUMBER.spec_bytes(),
            DeprecatedSyscall::GetBlockTimestamp => GET_BLOCK_TIMESTAMP.spec_bytes(),
            DeprecatedSyscall::GetCallerAddress => GET_CALLER_ADDRESS.spec_bytes(),
            DeprecatedSyscall::GetContractAddress => GET_CONTRACT_ADDRESS.spec_bytes(),
            DeprecatedSyscall::GetSequencerAddress => GET_SEQUENCER_ADDRESS.spec_bytes(),
            DeprecatedSyscall::GetTxInfo => GET_TX_INFO.spec_bytes(),
            DeprecatedSyscall::GetTxSignature => GET_TX_SIGNATURE.spec_bytes(),
            DeprecatedSyscall::LibraryCall => LIBRARY.spec_bytes(),
            DeprecatedSyscall::LibraryCallL1Handler => LIBRARY_CALL_L1_HANDLER.spec_bytes(),
            DeprecatedSyscall::ReplaceClass => REPLACE_CLASS.spec_bytes(),
            DeprecatedSyscall::SendMessageToL1 => SEND_MESSAGE_TO_L1.spec_bytes(),
            DeprecatedSyscall::StorageRead => STORAGE_READ.spec_bytes(),
            DeprecatedSyscall::StorageWrite => STORAGE_WRITE.spec_bytes(),
        }
    }
}

/// The DeprecatedSyscall whose hint has the code, if any.
fn syscall_from_code(code: &str) -> (r: Option<DeprecatedSyscall>)
    ensures
        r matches Some(k) ==> k.spec_code() == code.spec_bytes(),
        r is None ==> forall|k: DeprecatedSyscall| #[trigger] k.spec_code() != code.spec_bytes(),
{
    if same_text(code, CALL_CONTRACT) {
        return Some(DeprecatedSyscall::CallContract);
    }
    if same_text(code, DELEGATE_CALL) {
        return Some(DeprecatedSyscall::DelegateCall);
    }
    if same_text(code, DELEGATE_L1_HANDLER) {
        return Some(DeprecatedSyscall::DelegateL1Handler);
    }
    if same_text(code, DEPLOY) {
        return Some(DeprecatedSyscall::Deploy);
    }
    if same_text(code, EMIT_EVENT) {
        return Some(DeprecatedSyscall::EmitEvent);
    }
    if same_text(code, GET_BLOCK_NUMBER) {
        return Some(DeprecatedSyscall::GetBlockNumber);
    }
    if same_text(code, GET_BLOCK_TIMESTAMP) {
        return Some(DeprecatedSyscall::GetBlockTimestamp);
    }
    if same_text(code, GET_CALLER_ADDRESS) {
        return Some(DeprecatedSyscall::GetCallerAddress);
    }
    if same_text(code, GET_CONTRACT_ADDRESS) {
        return Some(DeprecatedSyscall::GetContractAddress);
    }
    if same_text(code, GET_SEQUENCER_ADDRESS) {
        return Some(DeprecatedSyscall::GetSequencerAddress);
    }
    if same_text(code, GET_TX_INFO) {
        return Some(DeprecatedSyscall::GetTxInfo);
    }
    if same_text(code, GET_TX_SIGNATURE) {
        return Some(DeprecatedSyscall::GetTxSignature);
    }
    if same_text(code, LIBRARY) {
        return Some(DeprecatedSyscall::LibraryCall);
    }
    if same_text(code, LIBRARY_CALL_L1_HANDLER) {
        return Some(DeprecatedSyscall::LibraryCallL1Handler);
    }
    if same_text(code, REPLACE_CLASS) {
        return Some(DeprecatedSyscall::ReplaceClass);
    }
    if same_text(code, SEND_MESSAGE_TO_L1) {
        return Some(DeprecatedSyscall::SendMessageToL1);
    }
    if same_text(code, STORAGE_READ) {
        return Some(DeprecatedSyscall::StorageRead);
    }
    if same_text(code, STORAGE_WRITE) {
        return Some(DeprecatedSyscall::StorageWrite);
    }
    None
}

impl SyscallSelector {
    /// The bytes of the code of this kind's hint.
    pub open spec fn spec_code(self) -> Seq<u8> {
        match self {
            SyscallSelector::CallContract => EXIT_CALL_CONTRACT_SYSCALL.spec_bytes(),
            SyscallSelector::DelegateCall => EXIT_DELEGATE_CALL_SYSCALL.spec_bytes(),
            SyscallSelector::DelegateL1Handler => EXIT_DELEGATE_L1_HANDLER_SYSCALL.spec_bytes(),
            SyscallSelector::Deploy => EXIT_DEPLOY_SYSCALL.spec_bytes(),
            SyscallSelector::EmitEvent => EXIT_EMIT_EVENT_SYSCALL.spec_bytes(),
            SyscallSelector::GetBlockHash => EXIT_GET_BLOCK_HASH_SYSCALL.spec_bytes(),
            SyscallSelector::GetBlockTimestamp => EXIT_GET_BLOCK_TIMESTAMP_SYSCALL.spec_bytes(),
            SyscallSelector::GetCallerAddress => EXIT_GET_CALLER_ADDRESS_SYSCALL.spec_bytes(),
            SyscallSelector::GetContractAddress => EXIT_GET_CONTRACT_ADDRESS_SYSCALL.spec_bytes(),
            SyscallSelector::GetExecutionInfo => EXIT_GET_EXECUTION_INFO_SYSCALL.spec_bytes(),
            SyscallSelector::GetSequencerAddress => EXIT_GET_SEQUENCER_ADDRESS_SYSCALL.spec_bytes(),
            SyscallSelector::GetTxInfo => EXIT_GET_TX_INFO_SYSCALL.spec_bytes(),
            SyscallSelector::GetTxSignature => EXIT_GET_TX_SIGNATURE_SYSCALL.spec_bytes(),
            SyscallSelector::Keccak => EXIT_KECCAK_SYSCALL.spec_bytes(),
            SyscallSelector::LibraryCallL1Handler => EXIT_LIBRARY_CALL_L1_HANDLER_SYSCALL.spec_bytes(),
            SyscallSelector::LibraryCall => EXIT_LIBRARY_CALL_SYSCALL.spec_bytes(),
            SyscallSelector::ReplaceClass => EXIT_REPLACE_CLASS_SYSCALL.spec_bytes(),
            SyscallSelector::Secp256k1Add => EXIT_SECP256K1_ADD_SYSCALL.spec_bytes(),
            SyscallSelector::Secp256k1GetPointFromX => EXIT_SECP256K1_GET_POINT_FROM_X_SYSCALL.spec_bytes(),
            SyscallSelector::Secp256k1GetXy => EXIT_SECP256K1_GET_XY_SYSCALL.spec_bytes(),
            SyscallSelector::Secp256k1Mul => EXIT_SECP256K1_MUL_SYSCALL.spec_bytes(),
            SyscallSelector::Secp256k1New => EXIT_SECP256K1_NEW_SYSCALL.spec_bytes(),
            SyscallSelector::Secp256r1Add => EXIT_SECP256R1_ADD_SYSCALL.spec_bytes(),
            SyscallSelector::Secp256r1GetPointFromX => EXIT_SECP256R1_GET_POINT_FROM_X_SYSCALL.spec_bytes(),
            SyscallSelector::Secp256r1GetXy => EXIT_SECP256R1_GET_XY_SYSCALL.spec_bytes(),
            SyscallSelector::Secp256r1Mul => EXIT_SECP256R1_MUL_SYSCALL.spec_bytes(),
            SyscallSelector::Secp256r1New => EXIT_SECP256R1_NEW_SYSCALL.spec_bytes(),
            SyscallSelector::SendMessageToL1 => EXIT_SEND_MESSAGE_TO_L1_SYSCALL.spec_bytes(),
            SyscallSelector::StorageRead => EXIT_STORAGE_READ_SYSCALL.spec_bytes(),
            SyscallSelector::StorageWrite => EXIT_STORAGE_WRITE_SYSCALL.spec_bytes(),
        }
    }
}

/// The SyscallSelector whose hint has the code, if any.
fn selector_from_code(code: &str) -> (r: Option<SyscallSelector>)
    ensures
        r matches Some(k) ==> k.spec_code() == code.spec_bytes(),
        r is None ==> forall|k: SyscallSelector| #[trigger] k.spec_code() != code.spec_bytes(),
{
    if same_text(code, EXIT_CALL_CONTRACT_SYSCALL) {
        return Some(SyscallSelector::CallContract);
    }
    if same_text(code, EXIT_DELEGATE_CALL_SYSCALL) {
        return Some(SyscallSelector::DelegateCall);
    }
    if same_text(code, EXIT_DELEGATE_L1_HANDLER_SYSCALL) {
        return Some(SyscallSelector::DelegateL1Handler);
    }
    if same_text(code, EXIT_DEPLOY_SYSCALL) {
        return Some(SyscallSelector::Deploy);
    }
    if same_text(code, EXIT_EMIT_EVENT_SYSCALL) {
        return Some(SyscallSelector::EmitEvent);
    }
    if same_text(code, EXIT_GET_BLOCK_HASH_SYSCALL) {
        return Some(SyscallSelector::GetBlockHash);
    }
    if same_text(code, EXIT_GET_BLOCK_TIMESTAMP_SYSCALL) {
        return Some(SyscallSelector::GetBlockTimestamp);
    }
    if same_text(code, EXIT_GET_CALLER_ADDRESS_SYSCALL) {
        return Some(SyscallSelector::GetCallerAddress);
    }
    if same_text(code, EXIT_GET_CONTRACT_ADDRESS_SYSCALL) {
        return Some(SyscallSelector::GetContractAddress);
    }
    if same_text(code, EXIT_GET_EXECUTION_INFO_SYSCALL) {
        return Some(SyscallSelector::GetExecutionInfo);
    }
    if same_text(code, EXIT_GET_SEQUENCER_ADDRESS_SYSCALL) {
        return Some(SyscallSelector::GetSequencerAddress);
    }
    if same_text(code, EXIT_GET_TX_INFO_SYSCALL) {
        return Some(SyscallSelector::GetTxInfo);
    }
    if same_text(code, EXIT_GET_TX_SIGNATURE_SYSCALL) {
        return Some(SyscallSelector::GetTxSignature);
    }
    if same_text(code, EXIT_KECCAK_SYSCALL) {
        return Some(SyscallSelector::Keccak);
    }
    if same_text(code, EXIT_LIBRARY_CALL_L1_HANDLER_SYSCALL) {
        return Some(SyscallSelector::LibraryCallL1Handler);
    }
    if same_text(code, EXIT_LIBRARY_CALL_SYSCALL) {
        return Some(SyscallSelector::LibraryCall);
    }
    if same_text(code, EXIT_REPLACE_CLASS_SYSCALL) {
        return Some(SyscallSelector::ReplaceClass);
    }
    if same_text(code, EXIT_SECP256K1_ADD_SYSCALL) {
        return Some(SyscallSelector::Secp256k1Add);
    }
    if same_text(code, EXIT_SECP256K1_GET_POINT_FROM_X_SYSCALL) {
        return Some(SyscallSelector::Secp256k1GetPointFromX);
    }
    if same_text(code, EXIT_SECP256K1_GET_XY_SYSCALL) {
        return Some(SyscallSelector::Secp256k1GetXy);
    }
    if same_text(code, EXIT_SECP256K1_MUL_SYSCALL) {
        return Some(SyscallSelector::Secp256k1Mul);
    }
    if same_text(code, EXIT_SECP256K1_NEW_SYSCALL) {
        return Some(SyscallSelector::Secp256k1New);
    }
    if same_text(code, EXIT_SECP256R1_ADD_SYSCALL) {
        return Some(SyscallSelector::Secp256r1Add);
    }
    if same_text(code, EXIT_SECP256R1_GET_POINT_FROM_X_SYSCALL) {
        return Some(SyscallSelector::Secp256r1GetPointFromX);
    }
    if same_text(code, EXIT_SECP256R1_GET_XY_SYSCALL) {
        return Some(SyscallSelector::Secp256r1GetXy);
    }
    if same_text(code, EXIT_SECP256R1_MUL_SYSCALL) {
        return Some(SyscallSelector::Secp256r1Mul);
    }
    if same_text(code, EXIT_SECP256R1_NEW_SYSCALL) {
        return Some(SyscallSelector::Secp256r1New);
    }
    if same_text(code, EXIT_SEND_MESSAGE_TO_L1_SYSCALL) {
        return Some(SyscallSelector::SendMessageToL1);
    }
    if same_text(code, EXIT_STORAGE_READ_SYSCALL) {
        return Some(SyscallSelector::StorageRead);
    }
    if same_text(code, EXIT_STORAGE_WRITE_SYSCALL) {
        return Some(SyscallSelector::StorageWrite);
    }
    None
}

/// Resolves a hint's code to its kind; a code that no kind has is an unknown
/// hint.
pub fn hint_kind_from_code(code: &str) -> (r: Result<HintKind, SyscallHintError>)
    ensures
        r matches Ok(k) ==> k.spec_code() == code.spec_bytes(),
        r is Err ==> (r matches Err(e) && e is UnknownHint),
        r is Err ==> forall|k: HintKind| #[trigger] k.spec_code() != code.spec_bytes(),
{
    match syscall_from_code(code) {
        Some(s) => return Ok(HintKind::Syscall(s)),
        None => {},
    }
    match selector_from_code(code) {
        Some(x) => return Ok(HintKind::ExitSyscall(x)),
        None => {},
    }
    if same_text(code, SET_SYSCALL_PTR) {
        return Ok(HintKind::SetSyscallPtr);
    }
    if same_text(code, OS_LOGGER_ENTER_SYSCALL_PREPRARE_EXIT_SYSCALL) {
        return Ok(HintKind::OsLoggerEnterSyscall);
    }
    if same_text(code, FETCH_STATE_ENTRY_5) {
        return Ok(HintKind::FetchStateEntry);
    }
    if same_text(code, CACHE_CONTRACT_STORAGE_2) {
        return Ok(HintKind::CacheContractStorage);
    }
    if same_text(code, CHECK_SYSCALL_RESPONSE) {
        return Ok(HintKind::CheckSyscallResponse);
    }
    if same_text(code, CHECK_NEW_SYSCALL_RESPONSE) {
        return Ok(HintKind::CheckNewSyscallResponse);
    }
    if same_text(code, CHECK_NEW_DEPLOY_RESPONSE) {
        return Ok(HintKind::CheckNewDeployResponse);
    }
    Err(SyscallHintError::UnknownHint)
}

} // verus!
