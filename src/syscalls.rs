//! The per-syscall hints, which hand the request at `ids.syscall_ptr` to the
//! active handler, and the telemetry hooks that bracket each syscall.
use vstd::prelude::*;

use cairo_vm::vm::errors::hint_errors::HintError;
use cairo_vm::vm::vm_core::VirtualMachine;

use crate::addr::Addr;
use crate::dispatch::{DeprecatedSyscall, SyscallSelector};
use crate::error::SyscallHintError;
use crate::felt::Felt;
use crate::segment::SyscallPtrSlot;
use crate::vm::{current_step, vm_current_step};

verus! {

/// One request as the handler received it: the syscall, the request's
/// address, whether the VM was handed over, and what the handler returned.
pub struct Handled {
    pub syscall: DeprecatedSyscall,
    pub syscall_ptr: Addr,
    pub with_vm: bool,
    pub outcome: Result<usize, HintError>,
}

/// The active syscall handler: it serves each legacy syscall request from the
/// execution oracle and reports how many cells the request and its response
/// take, so that the syscall pointer moves past them.
pub trait DeprecatedSyscallHandler {
    /// The requests handed to the handler so far, oldest first.
    closed spec fn requests(&self) -> Seq<Handled> {
        Seq::empty()
    }

    /// Serves a syscall whose response the handler records without writing VM
    /// memory; returns the size of the request and its response.
    fn handle(&mut self, syscall: DeprecatedSyscall, syscall_ptr: Addr) -> (r: Result<usize, HintError>)
        ensures
            final(self).requests() == old(self).requests().push(
                (Handled { syscall, syscall_ptr, with_vm: false, outcome: r }),
            ),
    ;

    /// Serves a syscall whose response the handler writes into VM memory;
    /// returns the size of the request and its response.
    fn handle_in_memory(
        &mut self,
        syscall: DeprecatedSyscall,
        syscall_ptr: Addr,
        vm: &mut VirtualMachine,
    ) -> (r: Result<usize, HintError>)
        ensures
            final(self).requests() == old(self).requests().push(
                (Handled { syscall, syscall_ptr, with_vm: true, outcome: r }),
            ),
    ;
}

/// The active syscall handler of one run, with the pointer slot that the
/// segment set-up fills and each served request advances.
pub struct ActiveHandler<H> {
    pub handler: H,
    pub slot: SyscallPtrSlot,
}

impl<H: DeprecatedSyscallHandler> ActiveHandler<H> {
    pub fn new(handler: H) -> (r: ActiveHandler<H>)
        ensures
            r.handler == handler,
            r.slot.current is None,
    {
        ActiveHandler { handler, slot: SyscallPtrSlot::new() }
    }
}

/// What one delegation did: exactly one request more went to the handler, for
/// `syscall` at `syscall_ptr`, with the VM when the syscall writes memory. A
/// served request moves the pointer past its cells; the handler's error comes
/// back unchanged and leaves the pointer alone.
pub open spec fn delegated(
    before: Seq<Handled>,
    after: Seq<Handled>,
    syscall: DeprecatedSyscall,
    syscall_ptr: Addr,
    slot_before: SyscallPtrSlot,
    slot_after: SyscallPtrSlot,
    r: Result<(), SyscallHintError>,
) -> bool {
    &&& after.len() == before.len() + 1
    &&& after.drop_last() == before
    &&& after.last().syscall == syscall
    &&& after.last().syscall_ptr == syscall_ptr
    &&& after.last().with_vm == syscall.spec_writes_memory()
    &&& match after.last().outcome {
        Ok(n) => match syscall_ptr.spec_add(n as int) {
            Some(next) => r is Ok && slot_after.current == Some(next),
            None => r matches Err(SyscallHintError::BadAddress(_)) && slot_after == slot_before,
        },
        Err(e) => r == Err::<(), SyscallHintError>(SyscallHintError::Hint(e)) && slot_after == slot_before,
    }
}

/// Hands the request at `syscall_ptr` (`ids.syscall_ptr`) to the handler, with
/// the VM only when the syscall writes its response into memory, and moves the
/// syscall pointer past the request and its response.
pub fn delegate_syscall<H: DeprecatedSyscallHandler>(
    active: &mut ActiveHandler<H>,
    syscall: DeprecatedSyscall,
    vm: &mut VirtualMachine,
    syscall_ptr: Addr,
) -> (r: Result<(), SyscallHintError>)
    ensures
        delegated(
            old(active).handler.requests(),
            final(active).handler.requests(),
            syscall,
            syscall_ptr,
            old(active).slot,
            final(active).slot,
            r,
        ),
        !syscall.spec_writes_memory() ==> *final(vm) == *old(vm),
{
    let outcome = if syscall.writes_memory() {
        active.handler.handle_in_memory(syscall, syscall_ptr, vm)
    } else {
        active.handler.handle(syscall, syscall_ptr)
    };
    proof {
        assert(active.handler.requests().drop_last() =~= old(active).handler.requests());
    }
    match outcome {
        Ok(n) => match syscall_ptr.add_offset(n) {
            Ok(next) => {
                active.slot.set_syscall_ptr(next);
                Ok(())
            },
            Err(e) => Err(SyscallHintError::BadAddress(e)),
        },
        Err(e) => Err(SyscallHintError::Hint(e)),
    }
}

/// The `call_contract` syscall hint: hands the request at `syscall_ptr` to the handler
/// as a `CallContract` request.
pub fn call_contract<H: DeprecatedSyscallHandler>(
    active: &mut ActiveHandler<H>,
    vm: &mut VirtualMachine,
    syscall_ptr: Addr,
) -> (r: Result<(), SyscallHintError>)
    ensures
        delegated(
            old(active).handler.requests(),
            final(active).handler.requests(),
            DeprecatedSyscall::CallContract,
            syscall_ptr,
            old(active).slot,
            final(active).slot,
            r,
        ),
{
    delegate_syscall(active, DeprecatedSyscall::CallContract, vm, syscall_ptr)
}

/// The `delegate_call` syscall hint: hands the request at `syscall_ptr` to the handler
/// as a `DelegateCall` request.
pub fn delegate_call<H: DeprecatedSyscallHandler>(
    active: &mut ActiveHandler<H>,
    vm: &mut VirtualMachine,
    syscall_ptr: Addr,
) -> (r: Result<(), SyscallHintError>)
    ensures
        delegated(
            old(active).handler.requests(),
            final(active).handler.requests(),
            DeprecatedSyscall::DelegateCall,
            syscall_ptr,
            old(active).slot,
            final(active).slot,
            r,
        ),
        *final(vm) == *old(vm),
{
    delegate_syscall(active, DeprecatedSyscall::DelegateCall, vm, syscall_ptr)
}

/// The `delegate_l1_handler` syscall hint: hands the request at `syscall_ptr` to the handler
/// as a `DelegateL1Handler` request.
pub fn delegate_l1_handler<H: DeprecatedSyscallHandler>(
    active: &mut ActiveHandler<H>,
    vm: &mut VirtualMachine,
    syscall_ptr: Addr,
) -> (r: Result<(), SyscallHintError>)
    ensures
        delegated(
            old(active).handler.requests(),
            final(active).handler.requests(),
            DeprecatedSyscall::DelegateL1Handler,
            syscall_ptr,
            old(active).slot,
            final(active).slot,
            r,
        ),
        *final(vm) == *old(vm),
{
    delegate_syscall(active, DeprecatedSyscall::DelegateL1Handler, vm, syscall_ptr)
}

/// The `deploy` syscall hint: hands the request at `syscall_ptr` to the handler
/// as a `Deploy` request.
pub fn deploy<H: DeprecatedSyscallHandler>(
    active: &mut ActiveHandler<H>,
    vm: &mut VirtualMachine,
    syscall_ptr: Addr,
) -> (r: Result<(), SyscallHintError>)
    ensures
        delegated(
            old(active).handler.requests(),
            final(active).handler.requests(),
            DeprecatedSyscall::Deploy,
            syscall_ptr,
            old(active).slot,
            final(active).slot,
            r,
        ),
        *final(vm) == *old(vm),
{
    delegate_syscall(active, DeprecatedSyscall::Deploy, vm, syscall_ptr)
}

/// The `emit_event` syscall hint: hands the request at `syscall_ptr` to the handler
/// as a `EmitEvent` request.
pub fn emit_event<H: DeprecatedSyscallHandler>(
    active: &mut ActiveHandler<H>,
    vm: &mut VirtualMachine,
    syscall_ptr: Addr,
) -> (r: Result<(), SyscallHintError>)
    ensures
        delegated(
            old(active).handler.requests(),
            final(active).handler.requests(),
            DeprecatedSyscall::EmitEvent,
            syscall_ptr,
            old(active).slot,
            final(active).slot,
            r,
        ),
        *final(vm) == *old(vm),
{
    delegate_syscall(active, DeprecatedSyscall::EmitEvent, vm, syscall_ptr)
}

/// The `get_block_number` syscall hint: hands the request at `syscall_ptr` to the handler
/// as a `GetBlockNumber` request.
pub fn get_block_number<H: DeprecatedSyscallHandler>(
    active: &mut ActiveHandler<H>,
    vm: &mut VirtualMachine,
    syscall_ptr: Addr,
) -> (r: Result<(), SyscallHintError>)
    ensures
        delegated(
            old(active).handler.requests(),
            final(active).handler.requests(),
            DeprecatedSyscall::GetBlockNumber,
            syscall_ptr,
            old(active).slot,
            final(active).slot,
            r,
        ),
        *final(vm) == *old(vm),
{
    delegate_syscall(active, DeprecatedSyscall::GetBlockNumber, vm, syscall_ptr)
}

/// The `get_block_timestamp` syscall hint: hands the request at `syscall_ptr` to the handler
/// as a `GetBlockTimestamp` request.
pub fn get_block_timestamp<H: DeprecatedSyscallHandler>(
    active: &mut ActiveHandler<H>,
    vm: &mut VirtualMachine,
    syscall_ptr: Addr,
) -> (r: Result<(), SyscallHintError>)
    ensures
        delegated(
            old(active).handler.requests(),
            final(active).handler.requests(),
            DeprecatedSyscall::GetBlockTimestamp,
            syscall_ptr,
            old(active).slot,
            final(active).slot,
            r,
        ),
        *final(vm) == *old(vm),
{
    delegate_syscall(active, DeprecatedSyscall::GetBlockTimestamp, vm, syscall_ptr)
}

/// The `get_caller_address` syscall hint: hands the request at `syscall_ptr` to the handler
/// as a `GetCallerAddress` request.
pub fn get_caller_address<H: DeprecatedSyscallHandler>(
    active: &mut ActiveHandler<H>,
    vm: &mut VirtualMachine,
    syscall_ptr: Addr,
) -> (r: Result<(), SyscallHintError>)
    ensures
        delegated(
            old(active).handler.requests(),
            final(active).handler.requests(),
            DeprecatedSyscall::GetCallerAddress,
            syscall_ptr,
            old(active).slot,
            final(active).slot,
            r,
        ),
{
    delegate_syscall(active, DeprecatedSyscall::GetCallerAddress, vm, syscall_ptr)
}

/// The `get_contract_address` syscall hint: hands the request at `syscall_ptr` to the handler
/// as a `GetContractAddress` request.
pub fn get_contract_address<H: DeprecatedSyscallHandler>(
    active: &mut ActiveHandler<H>,
    vm: &mut VirtualMachine,
    syscall_ptr: Addr,
) -> (r: Result<(), SyscallHintError>)
    ensures
        delegated(
            old(active).handler.requests(),
            final(active).handler.requests(),
            DeprecatedSyscall::GetContractAddress,
            syscall_ptr,
            old(active).slot,
            final(active).slot,
            r,
        ),
        *final(vm) == *old(vm),
{
    delegate_syscall(active, DeprecatedSyscall::GetContractAddress, vm, syscall_ptr)
}

/// The `get_sequencer_address` syscall hint: hands the request at `syscall_ptr` to the handler
/// as a `GetSequencerAddress` request.
pub fn get_sequencer_address<H: DeprecatedSyscallHandler>(
    active: &mut ActiveHandler<H>,
    vm: &mut VirtualMachine,
    syscall_ptr: Addr,
) -> (r: Result<(), SyscallHintError>)
    ensures
        delegated(
            old(active).handler.requests(),
            final(active).handler.requests(),
            DeprecatedSyscall::GetSequencerAddress,
            syscall_ptr,
            old(active).slot,
            final(active).slot,
            r,
        ),
        *final(vm) == *old(vm),
{
    delegate_syscall(active, DeprecatedSyscall::GetSequencerAddress, vm, syscall_ptr)
}

/// The `get_tx_info` syscall hint: hands the request at `syscall_ptr` to the handler
/// as a `GetTxInfo` request.
pub fn get_tx_info<H: DeprecatedSyscallHandler>(
    active: &mut ActiveHandler<H>,
    vm: &mut VirtualMachine,
    syscall_ptr: Addr,
) -> (r: Result<(), SyscallHintError>)
    ensures
        delegated(
            old(active).handler.requests(),
            final(active).handler.requests(),
            DeprecatedSyscall::GetTxInfo,
            syscall_ptr,
            old(active).slot,
            final(active).slot,
            r,
        ),
        *final(vm) == *old(vm),
{
    delegate_syscall(active, DeprecatedSyscall::GetTxInfo, vm, syscall_ptr)
}

/// The `get_tx_signature` syscall hint: hands the request at `syscall_ptr` to the handler
/// as a `GetTxSignature` request.
pub fn get_tx_signature<H: DeprecatedSyscallHandler>(
    active: &mut ActiveHandler<H>,
    vm: &mut VirtualMachine,
    syscall_ptr: Addr,
) -> (r: Result<(), SyscallHintError>)
    ensures
        delegated(
            old(active).handler.requests(),
            final(active).handler.requests(),
            DeprecatedSyscall::GetTxSignature,
            syscall_ptr,
            old(active).slot,
            final(active).slot,
            r,
        ),
        *final(vm) == *old(vm),
{
    delegate_syscall(active, DeprecatedSyscall::GetTxSignature, vm, syscall_ptr)
}

/// The `library_call` syscall hint: hands the request at `syscall_ptr` to the handler
/// as a `LibraryCall` request.
pub fn library_call<H: DeprecatedSyscallHandler>(
    active: &mut ActiveHandler<H>,
    vm: &mut VirtualMachine,
    syscall_ptr: Addr,
) -> (r: Result<(), SyscallHintError>)
    ensures
        delegated(
            old(active).handler.requests(),
            final(active).handler.requests(),
            DeprecatedSyscall::LibraryCall,
            syscall_ptr,
            old(active).slot,
            final(active).slot,
            r,
        ),
        *final(vm) == *old(vm),
{
    delegate_syscall(active, DeprecatedSyscall::LibraryCall, vm, syscall_ptr)
}

/// The `library_call_l1_handler` syscall hint: hands the request at `syscall_ptr` to the handler
/// as a `LibraryCallL1Handler` request.
pub fn library_call_l1_handler<H: DeprecatedSyscallHandler>(
    active: &mut ActiveHandler<H>,
    vm: &mut VirtualMachine,
    syscall_ptr: Addr,
) -> (r: Result<(), SyscallHintError>)
    ensures
        delegated(
            old(active).handler.requests(),
            final(active).handler.requests(),
            DeprecatedSyscall::LibraryCallL1Handler,
            syscall_ptr,
            old(active).slot,
            final(active).slot,
            r,
        ),
        *final(vm) == *old(vm),
{
    delegate_syscall(active, DeprecatedSyscall::LibraryCallL1Handler, vm, syscall_ptr)
}

/// The `replace_class` syscall hint: hands the request at `syscall_ptr` to the handler
/// as a `ReplaceClass` request.
pub fn replace_class<H: DeprecatedSyscallHandler>(
    active: &mut ActiveHandler<H>,
    vm: &mut VirtualMachine,
    syscall_ptr: Addr,
) -> (r: Result<(), SyscallHintError>)
    ensures
        delegated(
            old(active).handler.requests(),
            final(active).handler.requests(),
            DeprecatedSyscall::ReplaceClass,
            syscall_ptr,
            old(active).slot,
            final(active).slot,
            r,
        ),
        *final(vm) == *old(vm),
{
    delegate_syscall(active, DeprecatedSyscall::ReplaceClass, vm, syscall_ptr)
}

/// The `send_message_to_l1` syscall hint: hands the request at `syscall_ptr` to the handler
/// as a `SendMessageToL1` request.
pub fn send_message_to_l1<H: DeprecatedSyscallHandler>(
    active: &mut ActiveHandler<H>,
    vm: &mut VirtualMachine,
    syscall_ptr: Addr,
) -> (r: Result<(), SyscallHintError>)
    ensures
        delegated(
            old(active).handler.requests(),
            final(active).handler.requests(),
            DeprecatedSyscall::SendMessageToL1,
            syscall_ptr,
            old(active).slot,
            final(active).slot,
            r,
        ),
        *final(vm) == *old(vm),
{
    delegate_syscall(active, DeprecatedSyscall::SendMessageToL1, vm, syscall_ptr)
}

/// The `storage_read` syscall hint: hands the request at `syscall_ptr` to the handler
/// as a `StorageRead` request.
pub fn storage_read<H: DeprecatedSyscallHandler>(
    active: &mut ActiveHandler<H>,
    vm: &mut VirtualMachine,
    syscall_ptr: Addr,
) -> (r: Result<(), SyscallHintError>)
    ensures
        delegated(
            old(active).handler.requests(),
            final(active).handler.requests(),
            DeprecatedSyscall::StorageRead,
            syscall_ptr,
            old(active).slot,
            final(active).slot,
            r,
        ),
{
    delegate_syscall(active, DeprecatedSyscall::StorageRead, vm, syscall_ptr)
}

/// The `storage_write` syscall hint: hands the request at `syscall_ptr` to the handler
/// as a `StorageWrite` request.
pub fn storage_write<H: DeprecatedSyscallHandler>(
    active: &mut ActiveHandler<H>,
    vm: &mut VirtualMachine,
    syscall_ptr: Addr,
) -> (r: Result<(), SyscallHintError>)
    ensures
        delegated(
            old(active).handler.requests(),
            final(active).handler.requests(),
            DeprecatedSyscall::StorageWrite,
            syscall_ptr,
            old(active).slot,
            final(active).slot,
            r,
        ),
        *final(vm) == *old(vm),
{
    delegate_syscall(active, DeprecatedSyscall::StorageWrite, vm, syscall_ptr)
}

/// One telemetry record.
#[derive(Clone, Copy, Debug, PartialEq, Eq, Structural)]
pub enum SyscallEvent {
    /// A syscall's cost window opens.
    Enter { n_steps: usize, deprecated: bool, selector: Option<Felt>, builtin_ptrs: Option<Addr> },
    /// A syscall's cost window closes.
    Exit { selector: SyscallSelector },
}

/// The telemetry of a run, in the order the hooks fired.
#[derive(Debug)]
pub struct SyscallTrace {
    pub events: Vec<SyscallEvent>,
}

impl SyscallTrace {
    pub fn new() -> (r: SyscallTrace)
        ensures
            r.events@ == Seq::<SyscallEvent>::empty(),
    {
        SyscallTrace { events: Vec::new() }
    }

    pub fn record(&mut self, event: SyscallEvent)
        ensures
            final(self).events@ == old(self).events@.push(event),
    {
        self.events.push(event);
    }
}

/// The hook that opens a legacy syscall's cost window with the step count,
/// the selector (`ids.selector`) and the builtin pointers (`ids.builtin_ptrs`),
/// either of which may be unknown. Telemetry never fails a run nor touches
/// memory.
pub fn os_logger_enter_syscall_preprare_exit_syscall(
    trace: &mut SyscallTrace,
    vm: &VirtualMachine,
    selector: Option<Felt>,
    builtin_ptrs: Option<Addr>,
) -> (r: Result<(), SyscallHintError>)
    ensures
        r is Ok,
        final(trace).events@.len() == old(trace).events@.len() + 1,
        final(trace).events@.drop_last() == old(trace).events@,
        final(trace).events@.last() matches SyscallEvent::Enter { deprecated, selector: s, builtin_ptrs: b, .. }
            && deprecated && s == selector && b == builtin_ptrs,
        final(trace).events@.last() matches SyscallEvent::Enter { n_steps, .. } && n_steps == vm_current_step(*vm),
{
    let n_steps = current_step(vm);
    trace.record(SyscallEvent::Enter { n_steps, deprecated: true, selector, builtin_ptrs });
    proof {
        assert(trace.events@.drop_last() =~= old(trace).events@);
    }
    Ok(())
}

/// The hook that closes a syscall's cost window for `selector`.
pub fn exit_syscall(trace: &mut SyscallTrace, selector: SyscallSelector) -> (r: Result<(), SyscallHintError>)
    ensures
        r is Ok,
        final(trace).events@ == old(trace).events@.push(SyscallEvent::Exit { selector }),
{
    trace.record(SyscallEvent::Exit { selector });
    Ok(())
}

/// Closes the cost window of a `call_contract` syscall.
pub fn exit_call_contract_syscall(trace: &mut SyscallTrace) -> (r: Result<(), SyscallHintError>)
    ensures
        r is Ok,
        final(trace).events@ == old(trace).events@.push(
            SyscallEvent::Exit { selector: SyscallSelector::CallContract },
        ),
{
    exit_syscall(trace, SyscallSelector::CallContract)
}

/// Closes the cost window of a `delegate_call` syscall.
pub fn exit_delegate_call_syscall(trace: &mut SyscallTrace) -> (r: Result<(), SyscallHintError>)
    ensures
        r is Ok,
        final(trace).events@ == old(trace).events@.push(
            SyscallEvent::Exit { selector: SyscallSelector::DelegateCall },
        ),
{
    exit_syscall(trace, SyscallSelector::DelegateCall)
}

/// Closes the cost window of a `delegate_l1_handler` syscall.
pub fn exit_delegate_l1_handler_syscall(trace: &mut SyscallTrace) -> (r: Result<(), SyscallHintError>)
    ensures
        r is Ok,
        final(trace).events@ == old(trace).events@.push(
            SyscallEvent::Exit { selector: SyscallSelector::DelegateL1Handler },
        ),
{
    exit_syscall(trace, SyscallSelector::DelegateL1Handler)
}

/// Closes the cost window of a `deploy` syscall.
pub fn exit_deploy_syscall(trace: &mut SyscallTrace) -> (r: Result<(), SyscallHintError>)
    ensures
        r is Ok,
        final(trace).events@ == old(trace).events@.push(
            SyscallEvent::Exit { selector: SyscallSelector::Deploy },
        ),
{
    exit_syscall(trace, SyscallSelector::Deploy)
}

/// Closes the cost window of a `emit_event` syscall.
pub fn exit_emit_event_syscall(trace: &mut SyscallTrace) -> (r: Result<(), SyscallHintError>)
    ensures
        r is Ok,
        final(trace).events@ == old(trace).events@.push(
            SyscallEvent::Exit { selector: SyscallSelector::EmitEvent },
        ),
{
    exit_syscall(trace, SyscallSelector::EmitEvent)
}

/// Closes the cost window of a `get_block_hash` syscall.
pub fn exit_get_block_hash_syscall(trace: &mut SyscallTrace) -> (r: Result<(), SyscallHintError>)
    ensures
        r is Ok,
        final(trace).events@ == old(trace).events@.push(
            SyscallEvent::Exit { selector: SyscallSelector::GetBlockHash },
        ),
{
    exit_syscall(trace, SyscallSelector::GetBlockHash)
}

/// Closes the cost window of a `get_block_timestamp` syscall.
pub fn exit_get_block_timestamp_syscall(trace: &mut SyscallTrace) -> (r: Result<(), SyscallHintError>)
    ensures
        r is Ok,
        final(trace).events@ == old(trace).events@.push(
            SyscallEvent::Exit { selector: SyscallSelector::GetBlockTimestamp },
        ),
{
    exit_syscall(trace, SyscallSelector::GetBlockTimestamp)
}

/// Closes the cost window of a `get_caller_address` syscall.
pub fn exit_get_caller_address_syscall(trace: &mut SyscallTrace) -> (r: Result<(), SyscallHintError>)
    ensures
        r is Ok,
        final(trace).events@ == old(trace).events@.push(
            SyscallEvent::Exit { selector: SyscallSelector::GetCallerAddress },
        ),
{
    exit_syscall(trace, SyscallSelector::GetCallerAddress)
}

/// Closes the cost window of a `get_contract_address` syscall.
pub fn exit_get_contract_address_syscall(trace: &mut SyscallTrace) -> (r: Result<(), SyscallHintError>)
    ensures
        r is Ok,
        final(trace).events@ == old(trace).events@.push(
            SyscallEvent::Exit { selector: SyscallSelector::GetContractAddress },
        ),
{
    exit_syscall(trace, SyscallSelector::GetContractAddress)
}

/// Closes the cost window of a `get_execution_info` syscall.
pub fn exit_get_execution_info_syscall(trace: &mut SyscallTrace) -> (r: Result<(), SyscallHintError>)
    ensures
        r is Ok,
        final(trace).events@ == old(trace).events@.push(
            SyscallEvent::Exit { selector: SyscallSelector::GetExecutionInfo },
        ),
{
    exit_syscall(trace, SyscallSelector::GetExecutionInfo)
}

/// Closes the cost window of a `get_sequencer_address` syscall.
pub fn exit_get_sequencer_address_syscall(trace: &mut SyscallTrace) -> (r: Result<(), SyscallHintError>)
    ensures
        r is Ok,
        final(trace).events@ == old(trace).events@.push(
            SyscallEvent::Exit { selector: SyscallSelector::GetSequencerAddress },
        ),
{
    exit_syscall(trace, SyscallSelector::GetSequencerAddress)
}

/// Closes the cost window of a `get_tx_info` syscall.
pub fn exit_get_tx_info_syscall(trace: &mut SyscallTrace) -> (r: Result<(), SyscallHintError>)
    ensures
        r is Ok,
        final(trace).events@ == old(trace).events@.push(
            SyscallEvent::Exit { selector: SyscallSelector::GetTxInfo },
        ),
{
    exit_syscall(trace, SyscallSelector::GetTxInfo)
}

/// Closes the cost window of a `get_tx_signature` syscall.
pub fn exit_get_tx_signature_syscall(trace: &mut SyscallTrace) -> (r: Result<(), SyscallHintError>)
    ensures
        r is Ok,
        final(trace).events@ == old(trace).events@.push(
            SyscallEvent::Exit { selector: SyscallSelector::GetTxSignature },
        ),
{
    exit_syscall(trace, SyscallSelector::GetTxSignature)
}

/// Closes the cost window of a `keccak` syscall.
pub fn exit_keccak_syscall(trace: &mut SyscallTrace) -> (r: Result<(), SyscallHintError>)
    ensures
        r is Ok,
        final(trace).events@ == old(trace).events@.push(
            SyscallEvent::Exit { selector: SyscallSelector::Keccak },
        ),
{
    exit_syscall(trace, SyscallSelector::Keccak)
}

/// Closes the cost window of a `library_call_l1_handler` syscall.
pub fn exit_library_call_l1_handler_syscall(trace: &mut SyscallTrace) -> (r: Result<(), SyscallHintError>)
    ensures
        r is Ok,
        final(trace).events@ == old(trace).events@.push(
            SyscallEvent::Exit { selector: SyscallSelector::LibraryCallL1Handler },
        ),
{
    exit_syscall(trace, SyscallSelector::LibraryCallL1Handler)
}

/// Closes the cost window of a `library_call` syscall.
pub fn exit_library_call_syscall(trace: &mut SyscallTrace) -> (r: Result<(), SyscallHintError>)
    ensures
        r is Ok,
        final(trace).events@ == old(trace).events@.push(
            SyscallEvent::Exit { selector: SyscallSelector::LibraryCall },
        ),
{
    exit_syscall(trace, SyscallSelector::LibraryCall)
}

/// Closes the cost window of a `replace_class` syscall.
pub fn exit_replace_class_syscall(trace: &mut SyscallTrace) -> (r: Result<(), SyscallHintError>)
    ensures
        r is Ok,
        final(trace).events@ == old(trace).events@.push(
            SyscallEvent::Exit { selector: SyscallSelector::ReplaceClass },
        ),
{
    exit_syscall(trace, SyscallSelector::ReplaceClass)
}

/// Closes the cost window of a `secp256k1_add` syscall.
pub fn exit_secp256k1_add_syscall(trace: &mut SyscallTrace) -> (r: Result<(), SyscallHintError>)
    ensures
        r is Ok,
        final(trace).events@ == old(trace).events@.push(
            SyscallEvent::Exit { selector: SyscallSelector::Secp256k1Add },
        ),
{
    exit_syscall(trace, SyscallSelector::Secp256k1Add)
}

/// Closes the cost window of a `secp256k1_get_point_from_x` syscall.
pub fn exit_secp256k1_get_point_from_x_syscall(trace: &mut SyscallTrace) -> (r: Result<(), SyscallHintError>)
    ensures
        r is Ok,
        final(trace).events@ == old(trace).events@.push(
            SyscallEvent::Exit { selector: SyscallSelector::Secp256k1GetPointFromX },
        ),
{
    exit_syscall(trace, SyscallSelector::Secp256k1GetPointFromX)
}

/// Closes the cost window of a `secp256k1_get_xy` syscall.
pub fn exit_secp256k1_get_xy_syscall(trace: &mut SyscallTrace) -> (r: Result<(), SyscallHintError>)
    ensures
        r is Ok,
        final(trace).events@ == old(trace).events@.push(
            SyscallEvent::Exit { selector: SyscallSelector::Secp256k1GetXy },
        ),
{
    exit_syscall(trace, SyscallSelector::Secp256k1GetXy)
}

/// Closes the cost window of a `secp256k1_mul` syscall.
pub fn exit_secp256k1_mul_syscall(trace: &mut SyscallTrace) -> (r: Result<(), SyscallHintError>)
    ensures
        r is Ok,
        final(trace).events@ == old(trace).events@.push(
            SyscallEvent::Exit { selector: SyscallSelector::Secp256k1Mul },
        ),
{
    exit_syscall(trace, SyscallSelector::Secp256k1Mul)
}

/// Closes the cost window of a `secp256k1_new` syscall.
pub fn exit_secp256k1_new_syscall(trace: &mut SyscallTrace) -> (r: Result<(), SyscallHintError>)
    ensures
        r is Ok,
        final(trace).events@ == old(trace).events@.push(
            SyscallEvent::Exit { selector: SyscallSelector::Secp256k1New },
        ),
{
    exit_syscall(trace, SyscallSelector::Secp256k1New)
}

/// Closes the cost window of a `secp256r1_add` syscall.
pub fn exit_secp256r1_add_syscall(trace: &mut SyscallTrace) -> (r: Result<(), SyscallHintError>)
    ensures
        r is Ok,
        final(trace).events@ == old(trace).events@.push(
            SyscallEvent::Exit { selector: SyscallSelector::Secp256r1Add },
        ),
{
    exit_syscall(trace, SyscallSelector::Secp256r1Add)
}

/// Closes the cost window of a `secp256r1_get_point_from_x` syscall.
pub fn exit_secp256r1_get_point_from_x_syscall(trace: &mut SyscallTrace) -> (r: Result<(), SyscallHintError>)
    ensures
        r is Ok,
        final(trace).events@ == old(trace).events@.push(
            SyscallEvent::Exit { selector: SyscallSelector::Secp256r1GetPointFromX },
        ),
{
    exit_syscall(trace, SyscallSelector::Secp256r1GetPointFromX)
}

/// Closes the cost window of a `secp256r1_get_xy` syscall.
pub fn exit_secp256r1_get_xy_syscall(trace: &mut SyscallTrace) -> (r: Result<(), SyscallHintError>)
    ensures
        r is Ok,
        final(trace).events@ == old(trace).events@.push(
            SyscallEvent::Exit { selector: SyscallSelector::Secp256r1GetXy },
        ),
{
    exit_syscall(trace, SyscallSelector::Secp256r1GetXy)
}

/// Closes the cost window of a `secp256r1_mul` syscall.
pub fn exit_secp256r1_mul_syscall(trace: &mut SyscallTrace) -> (r: Result<(), SyscallHintError>)
    ensures
        r is Ok,
        final(trace).events@ == old(trace).events@.push(
            SyscallEvent::Exit { selector: SyscallSelector::Secp256r1Mul },
        ),
{
    exit_syscall(trace, SyscallSelector::Secp256r1Mul)
}

/// Closes the cost window of a `secp256r1_new` syscall.
pub fn exit_secp256r1_new_syscall(trace: &mut SyscallTrace) -> (r: Result<(), SyscallHintError>)
    ensures
        r is Ok,
        final(trace).events@ == old(trace).events@.push(
            SyscallEvent::Exit { selector: SyscallSelector::Secp256r1New },
        ),
{
    exit_syscall(trace, SyscallSelector::Secp256r1New)
}

/// Closes the cost window of a `send_message_to_l1` syscall.
pub fn exit_send_message_to_l1_syscall(trace: &mut SyscallTrace) -> (r: Result<(), SyscallHintError>)
    ensures
        r is Ok,
        final(trace).events@ == old(trace).events@.push(
            SyscallEvent::Exit { selector: SyscallSelector::SendMessageToL1 },
        ),
{
    exit_syscall(trace, SyscallSelector::SendMessageToL1)
}

/// Closes the cost window of a `storage_read` syscall.
pub fn exit_storage_read_syscall(trace: &mut SyscallTrace) -> (r: Result<(), SyscallHintError>)
    ensures
        r is Ok,
        final(trace).events@ == old(trace).events@.push(
            SyscallEvent::Exit { selector: SyscallSelector::StorageRead },
        ),
{
    exit_syscall(trace, SyscallSelector::StorageRead)
}

/// Closes the cost window of a `storage_write` syscall.
pub fn exit_storage_write_syscall(trace: &mut SyscallTrace) -> (r: Result<(), SyscallHintError>)
    ensures
        r is Ok,
        final(trace).events@ == old(trace).events@.push(
            SyscallEvent::Exit { selector: SyscallSelector::StorageWrite },
        ),
{
    exit_syscall(trace, SyscallSelector::StorageWrite)
}

} // verus!
