//! The VM as this library sees it: memory as a map from addresses to cells,
//! and a count of segments, over the interpreter's own `VirtualMachine`.
use vstd::prelude::*;

use cairo_vm::hint_processor::builtin_hint_processor::dict_manager::Dictionary;
use cairo_vm::types::relocatable::{MaybeRelocatable, Relocatable};
use cairo_vm::vm::errors::hint_errors::HintError;
use cairo_vm::vm::errors::memory_errors::MemoryError;
use cairo_vm::vm::vm_core::VirtualMachine;
use cairo_vm::Felt252;

use crate::addr::{Addr, Cell};
use crate::felt::Felt;

verus! {

#[verifier::external_type_specification]
#[verifier::external_body]
pub struct ExVirtualMachine(VirtualMachine);

#[verifier::external_type_specification]
#[verifier::external_body]
pub struct ExHintError(HintError);

#[verifier::external_type_specification]
#[verifier::external_body]
pub struct ExMemoryError(MemoryError);

#[verifier::external_type_specification]
#[verifier::external_body]
pub struct ExFelt252(Felt252);

#[verifier::external_type_specification]
#[verifier::external_body]
pub struct ExDictionary(Dictionary);

/// The address that a cell holds, if the address is given and its cell holds one.
pub open spec fn ptr_cell(mem: Map<Addr, Cell>, a: Option<Addr>) -> Option<Addr> {
    match a {
        Some(b) => if mem.contains_key(b) {
            match mem[b] {
                Cell::Ptr(p) => Some(p),
                Cell::Int(_) => None,
            }
        } else {
            None
        },
        None => None,
    }
}

/// The element that a cell holds, if the address is given and its cell holds one.
pub open spec fn int_cell(mem: Map<Addr, Cell>, a: Option<Addr>) -> Option<Felt> {
    match a {
        Some(b) => if mem.contains_key(b) {
            match mem[b] {
                Cell::Int(f) => Some(f),
                Cell::Ptr(_) => None,
            }
        } else {
            None
        },
        None => None,
    }
}

/// What `Memory::get` reports at each address: the cells that hold a value.
pub uninterp spec fn vm_memory(vm: VirtualMachine) -> Map<Addr, Cell>;

/// The number of (non-temporary) segments allocated so far.
pub uninterp spec fn vm_segment_count(vm: VirtualMachine) -> nat;

/// The cells that `Memory::insert` fills without allocating or validating:
/// unset cells inside the current length of a non-temporary segment that has
/// no validation rule.
pub uninterp spec fn vm_writable(vm: VirtualMachine) -> Set<Addr>;

/// The number of steps the VM has run.
pub uninterp spec fn vm_current_step(vm: VirtualMachine) -> nat;

/// Whether a dictionary is a default-valued one.
pub uninterp spec fn dict_defaulted(d: Dictionary) -> bool;

/// The key-value pairs that a dictionary stores.
pub uninterp spec fn dict_entries(d: Dictionary) -> Map<Cell, Cell>;

/// The cell `i` places after `a`, if the offset fits and the cell holds a value;
/// this is what one element of `Memory::get_range` is.
pub open spec fn cell_at(mem: Map<Addr, Cell>, a: Addr, i: int) -> Option<Cell> {
    match a.spec_add(i) {
        Some(b) => if mem.contains_key(b) {
            Some(mem[b])
        } else {
            None
        },
        None => None,
    }
}

/// The `n` cells from `a` on.
pub open spec fn memory_range(mem: Map<Addr, Cell>, a: Addr, n: nat) -> Seq<Option<Cell>> {
    Seq::new(n, |i: int| cell_at(mem, a, i))
}

/// Relies on `VirtualMachine::add_memory_segment`: it pushes an empty segment
/// and returns its first address, leaving every stored value as it was.
#[verifier::external_body]
pub(crate) fn add_segment(vm: &mut VirtualMachine) -> (r: Addr)
    ensures
        r.segment == vm_segment_count(*old(vm)),
        r.offset == 0,
        vm_segment_count(*final(vm)) == vm_segment_count(*old(vm)) + 1,
        vm_memory(*final(vm)) == vm_memory(*old(vm)),
        vm_writable(*final(vm)) == vm_writable(*old(vm)),
{
    let r = vm.add_memory_segment();
    Addr { segment: r.segment_index, offset: r.offset }
}

/// Relies on `VirtualMachine::get_integer`: the element stored at the address,
/// or an error when the cell is empty or holds an address.
#[verifier::external_body]
pub(crate) fn read_int(vm: &VirtualMachine, at: Addr) -> (r: Result<Felt, MemoryError>)
    ensures
        r is Ok <==> (vm_memory(*vm).contains_key(at) && vm_memory(*vm)[at] is Int),
        r matches Ok(f) ==> vm_memory(*vm)[at] == Cell::Int(f),
{
    match vm.get_integer(Relocatable { segment_index: at.segment, offset: at.offset }) {
        Ok(f) => {
            let d = f.to_le_digits();
            Ok(Felt { d0: d[0], d1: d[1], d2: d[2], d3: d[3] })
        },
        Err(e) => Err(e),
    }
}

/// Relies on `VirtualMachine::get_relocatable`: the address stored at the
/// address, or an error when the cell is empty or holds an element.
#[verifier::external_body]
pub(crate) fn read_ptr(vm: &VirtualMachine, at: Addr) -> (r: Result<Addr, MemoryError>)
    ensures
        r is Ok <==> (vm_memory(*vm).contains_key(at) && vm_memory(*vm)[at] is Ptr),
        r matches Ok(p) ==> vm_memory(*vm)[at] == Cell::Ptr(p),
{
    match vm.get_relocatable(Relocatable { segment_index: at.segment, offset: at.offset }) {
        Ok(p) => Ok(Addr { segment: p.segment_index, offset: p.offset }),
        Err(e) => Err(e),
    }
}

/// Relies on `VirtualMachine::get_range`: one entry per cell from `at` on,
/// `None` where the cell is empty or its offset overflows.
#[verifier::external_body]
pub(crate) fn read_range(vm: &VirtualMachine, at: Addr, n: usize) -> (r: Vec<Option<Cell>>)
    ensures
        r@ == memory_range(vm_memory(*vm), at, n as nat),
{
    let mut out = Vec::new();
    for c in vm.get_range(Relocatable { segment_index: at.segment, offset: at.offset }, n) {
        out.push(match c.as_deref() {
            Some(MaybeRelocatable::Int(f)) => {
                let d = f.to_le_digits();
                Some(Cell::Int(Felt { d0: d[0], d1: d[1], d2: d[2], d3: d[3] }))
            },
            Some(MaybeRelocatable::RelocatableValue(p)) => Some(Cell::Ptr(Addr { segment: p.segment_index, offset: p.offset })),
            None => None,
        });
    }
    out
}

/// Relies on `VirtualMachine::insert_value`: on success the cell holds the
/// value (a cell may be written again only with the value it holds); a
/// writable cell is always written; no other cell changes and no segment is
/// added either way.
#[verifier::external_body]
pub(crate) fn write_cell(vm: &mut VirtualMachine, at: Addr, v: Cell) -> (r: Result<(), MemoryError>)
    ensures
        vm_segment_count(*final(vm)) == vm_segment_count(*old(vm)),
        vm_writable(*old(vm)).contains(at) ==> r is Ok,
        r is Ok && v.is_stable() ==> vm_memory(*final(vm)) == vm_memory(*old(vm)).insert(at, v),
        vm_memory(*final(vm)).remove(at) == vm_memory(*old(vm)).remove(at),
        forall|b: Addr| #[trigger] vm_writable(*old(vm)).contains(b) && b != at ==> vm_writable(*final(vm)).contains(b),
{
    let key = Relocatable { segment_index: at.segment, offset: at.offset };
    match v {
        Cell::Ptr(p) => vm.insert_value(key, Relocatable { segment_index: p.segment, offset: p.offset }),
        Cell::Int(f) => {
            let b = [f.d0.to_le_bytes(), f.d1.to_le_bytes(), f.d2.to_le_bytes(), f.d3.to_le_bytes()].concat();
            vm.insert_value(key, Felt252::from_bytes_le_slice(&b))
        },
    }
}

/// Relies on `VirtualMachine::get_current_step`: the number of steps run so far.
#[verifier::external_body]
pub(crate) fn current_step(vm: &VirtualMachine) -> (r: usize)
    ensures
        r == vm_current_step(*vm),
{
    vm.get_current_step()
}

/// What a dictionary holds for one key.
#[derive(Clone, Copy, Debug, PartialEq, Eq, Structural)]
pub enum DictEntry {
    /// A plain dictionary, with the value stored under the key if any.
    Plain(Option<Cell>),
    /// A default-valued dictionary.
    Defaulted,
}

/// Relies on `HashMap::get`: the value that a plain dictionary stores under the
/// element `key`; a default-valued dictionary is reported as such.
#[verifier::external_body]
pub(crate) fn dictionary_entry(d: &Dictionary, key: Felt) -> (r: DictEntry)
    requires
        key.is_canonical(),
    ensures
        r == (if dict_defaulted(*d) {
            DictEntry::Defaulted
        } else if dict_entries(*d).contains_key(Cell::Int(key)) {
            DictEntry::Plain(Some(dict_entries(*d)[Cell::Int(key)]))
        } else {
            DictEntry::Plain(None)
        }),
{
    let b = [key.d0.to_le_bytes(), key.d1.to_le_bytes(), key.d2.to_le_bytes(), key.d3.to_le_bytes()].concat();
    match d {
        Dictionary::SimpleDictionary(m) => DictEntry::Plain(match m.get(&MaybeRelocatable::Int(Felt252::from_bytes_le_slice(&b))) {
            Some(MaybeRelocatable::Int(f)) => {
                let d = f.to_le_digits();
                Some(Cell::Int(Felt { d0: d[0], d1: d[1], d2: d[2], d3: d[3] }))
            },
            Some(MaybeRelocatable::RelocatableValue(p)) => Some(Cell::Ptr(Addr { segment: p.segment_index, offset: p.offset })),
            None => None,
        }),
        Dictionary::DefaultDictionary { .. } => DictEntry::Defaulted,
    }
}

} // verus!
