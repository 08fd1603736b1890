//! The storage consistency check: a value that the program read must be the
//! value that the oracle's storage cache holds.
use vstd::prelude::*;

use cairo_vm::vm::vm_core::VirtualMachine;

use crate::addr::Addr;
use crate::error::{Mismatch, SyscallHintError};
use crate::felt::Felt;
use crate::vm::{int_cell, read_int, vm_memory};

verus! {

/// Offset of the request's storage key in a legacy storage-read syscall.
pub const STORAGE_READ_KEY_OFFSET: usize = 1;

/// One storage read as the oracle received it, with its answer.
pub struct Asked {
    pub contract: Felt,
    pub key: Felt,
    pub answer: Option<Felt>,
}

/// The execution oracle's storage cache, as the surrounding system provides it.
pub trait StorageOracle {
    /// The reads asked of the oracle so far, oldest first.
    closed spec fn asked(&self) -> Seq<Asked> {
        Seq::empty()
    }

    /// The value stored under `key` for `contract`, reading it into the cache;
    /// `None` when the oracle cannot serve the pair.
    fn read_storage(&mut self, contract: &Felt, key: &Felt) -> (r: Option<Felt>)
        ensures
            final(self).asked() == old(self).asked().push(
                (Asked { contract: *contract, key: *key, answer: r }),
            ),
    ;
}

/// What the check returns for the oracle's answer `stored`: success when it is
/// the program's `observed` value, an oracle miss carrying the pair when there
/// is no answer, and otherwise an inconsistency carrying both values.
pub open spec fn storage_result(contract: Felt, key: Felt, stored: Option<Felt>, observed: Felt) -> Result<
    (),
    SyscallHintError,
> {
    match stored {
        None => Err(SyscallHintError::OracleMiss { contract, key }),
        Some(v) => if v == observed {
            Ok(())
        } else {
            Err(SyscallHintError::Inconsistency(Mismatch::StorageValue { observed, stored: v }))
        },
    }
}

/// Whether the program's value passes against what the oracle returned.
pub open spec fn storage_check_passes(stored: Option<Felt>, observed: Felt) -> bool {
    stored == Some(observed)
}

/// Checks the program's `observed` value against the oracle's answer for
/// (`contract`, `key`).
pub fn check_storage_value(contract: Felt, key: Felt, stored: Option<Felt>, observed: Felt) -> (r:
    Result<(), SyscallHintError>)
    ensures
        r == storage_result(contract, key, stored, observed),
        r is Ok <==> storage_check_passes(stored, observed),
        stored is None ==> (r matches Err(SyscallHintError::OracleMiss { contract: c, key: k }) && c
            == contract && k == key),
        stored matches Some(v) ==> (v != observed ==> (r matches Err(
            SyscallHintError::Inconsistency(Mismatch::StorageValue { observed: o, stored: s }),
        ) && o == observed && s == v)),
{
    match stored {
        None => Err(SyscallHintError::OracleMiss { contract, key }),
        Some(v) => if v.same(&observed) {
            Ok(())
        } else {
            Err(SyscallHintError::Inconsistency(Mismatch::StorageValue { observed, stored: v }))
        },
    }
}

/// The storage key of the legacy storage-read request at `syscall_ptr`, if its
/// cell holds an element.
pub open spec fn request_key(mem: Map<Addr, crate::addr::Cell>, syscall_ptr: Addr) -> Option<Felt> {
    int_cell(mem, syscall_ptr.spec_add(STORAGE_READ_KEY_OFFSET as int))
}

/// Reads the storage key of the legacy storage-read request at `syscall_ptr`.
pub fn storage_read_key(vm: &VirtualMachine, syscall_ptr: Addr) -> (r: Result<Felt, SyscallHintError>)
    ensures
        r is Ok <==> request_key(vm_memory(*vm), syscall_ptr) is Some,
        r matches Ok(k) ==> request_key(vm_memory(*vm), syscall_ptr) == Some(k),
        r matches Err(e) ==> (e is BadAddress || e is Memory),
{
    let at = match syscall_ptr.add_offset(STORAGE_READ_KEY_OFFSET) {
        Ok(a) => a,
        Err(e) => return Err(SyscallHintError::BadAddress(e)),
    };
    match read_int(vm, at) {
        Ok(k) => Ok(k),
        Err(e) => Err(SyscallHintError::Memory(e)),
    }
}

/// The hint that makes the oracle read the storage value of the pending
/// storage-read request at `syscall_ptr` (`ids.syscall_ptr`) for
/// `contract_address` (`ids.contract_address`), so that it is cached for the
/// commitment, and checks it against the program's `value` (`ids.value`).
pub fn cache_contract_storage_2<O: StorageOracle>(
    vm: &VirtualMachine,
    oracle: &mut O,
    contract_address: Felt,
    syscall_ptr: Addr,
    value: Felt,
) -> (r: Result<(), SyscallHintError>)
    ensures
        request_key(vm_memory(*vm), syscall_ptr) is None ==> (r matches Err(e) && (e is BadAddress
            || e is Memory)) && final(oracle).asked() == old(oracle).asked(),
        request_key(vm_memory(*vm), syscall_ptr) matches Some(k) ==> {
            let asked = final(oracle).asked();
            &&& asked.len() == old(oracle).asked().len() + 1
            &&& asked.drop_last() == old(oracle).asked()
            &&& asked.last().contract == contract_address
            &&& asked.last().key == k
            &&& r == storage_result(contract_address, k, asked.last().answer, value)
        },
{
    let key = storage_read_key(vm, syscall_ptr)?;
    let stored = oracle.read_storage(&contract_address, &key);
    proof {
        assert(oracle.asked().drop_last() =~= old(oracle).asked());
    }
    check_storage_value(contract_address, key, stored, value)
}

/// The check introduces no state: its verdict depends on the oracle's answer
/// and the program's value alone, so two calls on the same pair and value,
/// against an oracle whose answer is stable, pass or fail together.
pub proof fn lemma_storage_check_idempotent(
    first_stored: Option<Felt>,
    second_stored: Option<Felt>,
    observed: Felt,
)
    requires
        first_stored == second_stored,
    ensures
        storage_check_passes(first_stored, observed) <==> storage_check_passes(second_stored, observed),
        storage_check_passes(first_stored, observed) <==> first_stored == Some(observed),
{
}

} // verus!
