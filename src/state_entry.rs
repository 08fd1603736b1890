//! The contract state-entry fetch: the entry that the state-changes
//! dictionary holds for a contract, beside a fresh segment for its update.
use vstd::prelude::*;

use cairo_vm::hint_processor::builtin_hint_processor::dict_manager::Dictionary;
use cairo_vm::vm::vm_core::VirtualMachine;

use crate::addr::{Addr, Cell};
use crate::error::{SyscallHintError, Violation};
use crate::felt::Felt;
use crate::segment::segment_start;
use crate::vm::{
    add_segment, dict_defaulted, dict_entries, dictionary_entry, vm_memory, vm_segment_count,
    vm_writable, write_cell, DictEntry,
};

verus! {

/// What the dictionary `d` holds for the contract `key`.
pub open spec fn state_entry_of(d: Dictionary, key: Felt) -> DictEntry {
    if dict_defaulted(d) {
        DictEntry::Defaulted
    } else if dict_entries(d).contains_key(Cell::Int(key)) {
        DictEntry::Plain(Some(dict_entries(d)[Cell::Int(key)]))
    } else {
        DictEntry::Plain(None)
    }
}

/// A state entry that points into a segment allocated before the `n`th, or is
/// no pointer at all: what a well-formed state-changes dictionary holds.
pub open spec fn entry_allocated_below(entry: Cell, n: nat) -> bool {
    match entry {
        Cell::Ptr(p) => p.segment < n,
        Cell::Int(_) => true,
    }
}

/// The hint that fetches the entry that the state-changes dictionary
/// (`ids.contract_state_changes`) holds for `contract_address`, writes it to
/// the cell of `ids.state_entry` (`state_entry_loc`) and the first address of
/// a fresh segment to the cell of `ids.new_state_entry` (`new_state_entry_loc`).
/// A default-valued dictionary, or one without the entry, is refused and
/// memory is left alone; the fetched entry is never changed.
pub fn fetch_state_entry_5(
    vm: &mut VirtualMachine,
    state_changes: &Dictionary,
    contract_address: Felt,
    state_entry_loc: Addr,
    new_state_entry_loc: Addr,
) -> (r: Result<(), SyscallHintError>)
    requires
        contract_address.is_canonical(),
    ensures
        dict_defaulted(*state_changes) ==> (r matches Err(SyscallHintError::InvariantViolation(v))
            && v == Violation::DefaultDictionary) && *final(vm) == *old(vm),
        state_entry_of(*state_changes, contract_address) == DictEntry::Plain(None) ==> (r matches Err(
            SyscallHintError::InvariantViolation(v),
        ) && v == Violation::MissingStateEntry) && *final(vm) == *old(vm),
        state_entry_of(*state_changes, contract_address) matches DictEntry::Plain(Some(old_entry)) ==> {
            &&& (state_entry_loc != new_state_entry_loc && vm_writable(*old(vm)).contains(
                state_entry_loc,
            ) && vm_writable(*old(vm)).contains(new_state_entry_loc)) ==> r is Ok
            &&& r matches Err(e) ==> e is Memory
            &&& vm_memory(*final(vm)).remove(state_entry_loc).remove(new_state_entry_loc) == vm_memory(
                *old(vm),
            ).remove(state_entry_loc).remove(new_state_entry_loc)
            &&& r is Ok ==> vm_segment_count(*final(vm)) == vm_segment_count(*old(vm)) + 1
            &&& r is Ok ==> vm_memory(*final(vm)).contains_key(new_state_entry_loc) && vm_memory(
                *final(vm),
            )[new_state_entry_loc] == Cell::Ptr(segment_start(vm_segment_count(*old(vm))))
            &&& (r is Ok && old_entry.is_stable()) ==> vm_memory(*final(vm)) == vm_memory(
                *old(vm),
            ).insert(state_entry_loc, old_entry).insert(
                new_state_entry_loc,
                Cell::Ptr(segment_start(vm_segment_count(*old(vm)))),
            )
            &&& (r is Ok && entry_allocated_below(old_entry, vm_segment_count(*old(vm))))
                ==> old_entry != Cell::Ptr(segment_start(vm_segment_count(*old(vm))))
        },
{
    let entry = dictionary_entry(state_changes, contract_address);
    let old_entry = match entry {
        DictEntry::Defaulted => {
            return Err(SyscallHintError::InvariantViolation(Violation::DefaultDictionary));
        },
        DictEntry::Plain(None) => {
            return Err(SyscallHintError::InvariantViolation(Violation::MissingStateEntry));
        },
        DictEntry::Plain(Some(c)) => c,
    };
    let ghost before = vm_memory(*vm);
    match write_cell(vm, state_entry_loc, old_entry) {
        Ok(()) => {},
        Err(e) => {
            assert(vm_memory(*vm).remove(state_entry_loc).remove(new_state_entry_loc) =~= before.remove(
                state_entry_loc,
            ).remove(new_state_entry_loc));
            return Err(SyscallHintError::Memory(e));
        },
    }
    let ghost mid = vm_memory(*vm);
    let new_entry = add_segment(vm);
    let w = write_cell(vm, new_state_entry_loc, Cell::Ptr(new_entry));
    assert(vm_memory(*vm).remove(state_entry_loc).remove(new_state_entry_loc) =~= before.remove(
        state_entry_loc,
    ).remove(new_state_entry_loc)) by {
        let fin = vm_memory(*vm);
        assert(mid.remove(state_entry_loc) =~= before.remove(state_entry_loc));
        assert(fin.remove(new_state_entry_loc) =~= mid.remove(new_state_entry_loc));
        assert(mid.remove(state_entry_loc).remove(new_state_entry_loc) =~= before.remove(state_entry_loc).remove(new_state_entry_loc));
        assert(fin.remove(new_state_entry_loc).remove(state_entry_loc) =~= mid.remove(new_state_entry_loc).remove(state_entry_loc));
        assert(fin.remove(state_entry_loc).remove(new_state_entry_loc) =~= fin.remove(new_state_entry_loc).remove(state_entry_loc));
        assert(mid.remove(state_entry_loc).remove(new_state_entry_loc) =~= mid.remove(new_state_entry_loc).remove(state_entry_loc));
    }
    match w {
        Ok(()) => Ok(()),
        Err(e) => Err(SyscallHintError::Memory(e)),
    }
}

/// The old entry and the staged new entry never alias: the new one starts a
/// segment allocated by the fetch itself, and fetches one after another stage
/// distinct segments.
pub proof fn lemma_state_entry_non_aliasing(old_entry: Cell, n: nat, later: nat)
    requires
        entry_allocated_below(old_entry, n),
        n < later <= isize::MAX,
    ensures
        old_entry != Cell::Ptr(segment_start(n)),
        segment_start(n) != segment_start(later),
{
}

} // verus!
