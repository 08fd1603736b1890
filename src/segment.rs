//! The syscall segment's lifecycle: two fresh segments per contract
//! invocation, the second becoming the handler's syscall pointer.
use vstd::prelude::*;

use cairo_vm::vm::vm_core::VirtualMachine;

use crate::addr::{Addr, Cell};
use crate::error::SyscallHintError;
use crate::vm::{add_segment, vm_memory, vm_segment_count, vm_writable, write_cell};

verus! {

/// The first address of the segment with index `n`.
pub open spec fn segment_start(n: nat) -> Addr {
    Addr { segment: n as isize, offset: 0 }
}

/// The active syscall handler's pointer into its syscall segment: `None`
/// until the segment is set up for an invocation.
#[derive(Clone, Copy, Debug, PartialEq, Eq, Structural)]
pub struct SyscallPtrSlot {
    pub current: Option<Addr>,
}

impl SyscallPtrSlot {
    pub fn new() -> (r: SyscallPtrSlot)
        ensures
            r.current is None,
    {
        SyscallPtrSlot { current: None }
    }

    pub fn syscall_ptr(&self) -> (r: Option<Addr>)
        ensures
            r == self.current,
    {
        self.current
    }

    pub fn set_syscall_ptr(&mut self, ptr: Addr)
        ensures
            final(self).current == Some(ptr),
    {
        self.current = Some(ptr);
    }
}

/// Memory after the two segment addresses were written to their slots.
pub open spec fn holds_fresh_pair(
    before: Map<Addr, Cell>,
    after: Map<Addr, Cell>,
    os_context_loc: Addr,
    syscall_ptr_loc: Addr,
    n: nat,
) -> bool {
    after == before.insert(os_context_loc, Cell::Ptr(segment_start(n))).insert(
        syscall_ptr_loc,
        Cell::Ptr(segment_start(n + 1)),
    )
}

/// The hint that allocates the os-context segment and the syscall segment,
/// writes their first addresses to the cells of `ids.os_context`
/// (`os_context_loc`) and `ids.syscall_ptr` (`syscall_ptr_loc`), and installs
/// the second as the handler's syscall pointer.
pub fn set_syscall_ptr(
    vm: &mut VirtualMachine,
    slot: &mut SyscallPtrSlot,
    os_context_loc: Addr,
    syscall_ptr_loc: Addr,
) -> (r: Result<(), SyscallHintError>)
    ensures
        vm_segment_count(*final(vm)) == vm_segment_count(*old(vm)) + 2,
        os_context_loc != syscall_ptr_loc && vm_writable(*old(vm)).contains(os_context_loc)
            && vm_writable(*old(vm)).contains(syscall_ptr_loc) ==> r is Ok,
        r is Ok ==> holds_fresh_pair(
            vm_memory(*old(vm)),
            vm_memory(*final(vm)),
            os_context_loc,
            syscall_ptr_loc,
            vm_segment_count(*old(vm)),
        ),
        r is Ok ==> final(slot).current == Some(segment_start(vm_segment_count(*old(vm)) + 1)),
        r is Ok ==> segment_start(vm_segment_count(*old(vm))) != segment_start(
            vm_segment_count(*old(vm)) + 1,
        ),
        r is Err ==> *final(slot) == *old(slot),
{
    let os_context = add_segment(vm);
    let syscall_ptr = add_segment(vm);
    match write_cell(vm, os_context_loc, Cell::Ptr(os_context)) {
        Ok(()) => {},
        Err(e) => return Err(SyscallHintError::Memory(e)),
    }
    match write_cell(vm, syscall_ptr_loc, Cell::Ptr(syscall_ptr)) {
        Ok(()) => {},
        Err(e) => return Err(SyscallHintError::Memory(e)),
    }
    slot.set_syscall_ptr(syscall_ptr);
    Ok(())
}

/// The two segments that the set-up allocates are fresh and distinct, and the
/// handler's pointer is the one written to the syscall-pointer slot.
pub proof fn lemma_segment_exclusivity(
    before: Map<Addr, Cell>,
    after: Map<Addr, Cell>,
    os_context_loc: Addr,
    syscall_ptr_loc: Addr,
    n: nat,
    slot: SyscallPtrSlot,
)
    requires
        n + 1 <= isize::MAX,
        os_context_loc != syscall_ptr_loc,
        holds_fresh_pair(before, after, os_context_loc, syscall_ptr_loc, n),
        slot.current == Some(segment_start(n + 1)),
    ensures
        after[os_context_loc] != after[syscall_ptr_loc],
        after[os_context_loc] == Cell::Ptr(segment_start(n)),
        slot.current == Some(match after[syscall_ptr_loc] {
            Cell::Ptr(p) => p,
            Cell::Int(_) => segment_start(n),
        }),
        segment_start(n).segment >= n && segment_start(n + 1).segment >= n,
{
}

} // verus!
