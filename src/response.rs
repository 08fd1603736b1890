//! The response verifier: the return data that a syscall response announces
//! must be, cell for cell, the return data that the program declares.
use vstd::prelude::*;

use cairo_vm::vm::vm_core::VirtualMachine;

use crate::addr::{felt_to_count, Addr, AddressFault, Cell};
use crate::error::{Mismatch, SyscallHintError};
use crate::felt::Felt;
use crate::vm::{cell_at, int_cell, memory_range, ptr_cell, read_int, read_ptr, read_range, vm_memory};

verus! {

/// Offset of `retdata_size` in a legacy call response.
pub const LEGACY_RETDATA_SIZE_OFFSET: usize = 0;
/// Offset of `retdata` in a legacy call response.
pub const LEGACY_RETDATA_OFFSET: usize = 1;
/// Offset of `retdata_start` in a current call response.
pub const RETDATA_START_OFFSET: usize = 0;
/// Offset of `retdata_end` in a current call response.
pub const RETDATA_END_OFFSET: usize = 1;
/// Offset of `constructor_retdata_start` in a current deploy response.
pub const CONSTRUCTOR_RETDATA_START_OFFSET: usize = 1;
/// Offset of `constructor_retdata_end` in a current deploy response.
pub const CONSTRUCTOR_RETDATA_END_OFFSET: usize = 2;

/// The return data that a syscall response announces, in one of its encodings.
#[derive(Clone, Copy, Debug, PartialEq, Eq, Structural)]
pub enum ResponseEnvelope {
    /// A pointer and a count.
    Legacy { retdata: Addr, retdata_size: Felt },
    /// A start and an end pointer.
    Ranged { start: Addr, end: Addr },
    /// A deploy response's constructor return data, as a start and an end pointer.
    DeployRanged { start: Addr, end: Addr },
}

impl ResponseEnvelope {
    /// The announced data as an address and a length, when the envelope is sound.
    pub open spec fn spec_range(self) -> Option<(Addr, nat)> {
        match self {
            ResponseEnvelope::Legacy { retdata, retdata_size } => if retdata_size.value() <= usize::MAX {
                Some((retdata, retdata_size.value()))
            } else {
                None
            },
            ResponseEnvelope::Ranged { start, end } => match end.spec_distance(start) {
                Some(n) => Some((start, n)),
                None => None,
            },
            ResponseEnvelope::DeployRanged { start, end } => match end.spec_distance(start) {
                Some(n) => Some((start, n)),
                None => None,
            },
        }
    }

    /// Converts the envelope to an address and a length.
    pub fn expected_range(&self) -> (r: Result<(Addr, usize), AddressFault>)
        ensures
            r is Ok <==> self.spec_range() is Some,
            r matches Ok(p) ==> self.spec_range() == Some((p.0, p.1 as nat)),
    {
        match self {
            ResponseEnvelope::Legacy { retdata, retdata_size } => {
                let n = felt_to_count(retdata_size)?;
                Ok((*retdata, n))
            },
            ResponseEnvelope::Ranged { start, end } => {
                let n = end.distance_from(*start)?;
                Ok((*start, n))
            },
            ResponseEnvelope::DeployRanged { start, end } => {
                let n = end.distance_from(*start)?;
                Ok((*start, n))
            },
        }
    }
}

/// Whether the data that `env` announces equals the `actual_size` cells from
/// `actual`, element for element and in length.
pub open spec fn response_matches(
    mem: Map<Addr, Cell>,
    env: ResponseEnvelope,
    actual: Addr,
    actual_size: Felt,
) -> bool {
    match env.spec_range() {
        Some(e) => actual_size.value() <= usize::MAX && memory_range(mem, e.0, e.1) == memory_range(
            mem,
            actual,
            actual_size.value(),
        ),
        None => false,
    }
}

/// The legacy response stored at `p`, if its cells hold a pointer and a count.
pub open spec fn legacy_envelope_at(mem: Map<Addr, Cell>, p: Addr) -> Option<ResponseEnvelope> {
    match (ptr_cell(mem, p.spec_add(1)), int_cell(mem, p.spec_add(0))) {
        (Some(retdata), Some(retdata_size)) => Some(ResponseEnvelope::Legacy { retdata, retdata_size }),
        _ => None,
    }
}

/// The current call response stored at `p`, if its cells hold two pointers.
pub open spec fn ranged_envelope_at(mem: Map<Addr, Cell>, p: Addr) -> Option<ResponseEnvelope> {
    match (ptr_cell(mem, p.spec_add(0)), ptr_cell(mem, p.spec_add(1))) {
        (Some(start), Some(end)) => Some(ResponseEnvelope::Ranged { start, end }),
        _ => None,
    }
}

/// The current deploy response stored at `p`, if its cells hold two pointers.
pub open spec fn deploy_envelope_at(mem: Map<Addr, Cell>, p: Addr) -> Option<ResponseEnvelope> {
    match (ptr_cell(mem, p.spec_add(1)), ptr_cell(mem, p.spec_add(2))) {
        (Some(start), Some(end)) => Some(ResponseEnvelope::DeployRanged { start, end }),
        _ => None,
    }
}

/// Whether the response stored at `p` in `found` form checks against the
/// program's data.
pub open spec fn response_holds(
    mem: Map<Addr, Cell>,
    found: Option<ResponseEnvelope>,
    actual: Addr,
    actual_size: Felt,
) -> bool {
    match found {
        Some(env) => response_matches(mem, env, actual, actual_size),
        None => false,
    }
}

fn same_cell(a: &Option<Cell>, b: &Option<Cell>) -> (r: bool)
    ensures
        r == (*a == *b),
{
    match (a, b) {
        (Some(Cell::Int(x)), Some(Cell::Int(y))) => x.same(y),
        (Some(Cell::Ptr(x)), Some(Cell::Ptr(y))) => x.segment == y.segment && x.offset == y.offset,
        (None, None) => true,
        _ => false,
    }
}

fn same_cells(a: &Vec<Option<Cell>>, b: &Vec<Option<Cell>>) -> (r: bool)
    ensures
        r == (a@ == b@),
{
    if a.len() != b.len() {
        return false;
    }
    let mut i: usize = 0;
    while i < a.len()
        invariant
            a@.len() == b@.len(),
            i <= a@.len(),
            forall|j: int| 0 <= j < i ==> a@[j] == b@[j],
        decreases a@.len() - i,
    {
        if !same_cell(&a[i], &b[i]) {
            return false;
        }
        i = i + 1;
    }
    assert(a@ =~= b@);
    true
}

/// Checks that the `expected_size` cells from `expected_ptr` equal the
/// `actual_size` cells from `actual_ptr`; on a mismatch both runs are reported.
pub fn assert_memory_ranges_equal(
    vm: &VirtualMachine,
    expected_ptr: Addr,
    expected_size: usize,
    actual_ptr: Addr,
    actual_size: usize,
) -> (r: Result<(), SyscallHintError>)
    ensures
        r is Ok <==> memory_range(vm_memory(*vm), expected_ptr, expected_size as nat)
            == memory_range(vm_memory(*vm), actual_ptr, actual_size as nat),
        r is Err ==> (r matches Err(SyscallHintError::Inconsistency(Mismatch::ReturnData { expected, actual }))
            && expected@ == memory_range(vm_memory(*vm), expected_ptr, expected_size as nat)
            && actual@ == memory_range(vm_memory(*vm), actual_ptr, actual_size as nat)),
{
    let expected = read_range(vm, expected_ptr, expected_size);
    let actual = read_range(vm, actual_ptr, actual_size);
    if same_cells(&expected, &actual) {
        Ok(())
    } else {
        Err(SyscallHintError::Inconsistency(Mismatch::ReturnData { expected, actual }))
    }
}

/// What a check of `env` against the `actual_size` cells from `actual` returns:
/// success exactly when the data match; a bad address when the envelope or the
/// count is unsound; otherwise an inconsistency that carries both runs.
pub open spec fn check_reported(
    mem: Map<Addr, Cell>,
    env: ResponseEnvelope,
    actual: Addr,
    actual_size: Felt,
    r: Result<(), SyscallHintError>,
) -> bool {
    (r is Ok <==> response_matches(mem, env, actual, actual_size)) && ((env.spec_range() is None
        || actual_size.value() > usize::MAX) ==> is_bad_address(r)) && match env.spec_range() {
        Some(e) => (actual_size.value() <= usize::MAX && r is Err) ==> mismatch_reported(
            mem,
            e.0,
            e.1,
            actual,
            actual_size.value(),
            r,
        ),
        None => true,
    }
}

/// A failure from address arithmetic or a count out of range.
pub open spec fn is_bad_address(r: Result<(), SyscallHintError>) -> bool {
    match r {
        Err(SyscallHintError::BadAddress(_)) => true,
        _ => false,
    }
}

/// A failure that is an inconsistency carrying both runs.
pub open spec fn mismatch_reported(
    mem: Map<Addr, Cell>,
    expected_ptr: Addr,
    expected_size: nat,
    actual_ptr: Addr,
    actual_size: nat,
    r: Result<(), SyscallHintError>,
) -> bool {
    r matches Err(SyscallHintError::Inconsistency(Mismatch::ReturnData { expected, actual }))
        && expected@ == memory_range(mem, expected_ptr, expected_size) && actual@ == memory_range(
        mem,
        actual_ptr,
        actual_size,
    )
}

/// What a check of the response stored at a pointer returns: the envelope's
/// fields must be readable, and then the check of the envelope decides.
pub open spec fn stored_check_reported(
    mem: Map<Addr, Cell>,
    found: Option<ResponseEnvelope>,
    actual: Addr,
    actual_size: Felt,
    r: Result<(), SyscallHintError>,
) -> bool {
    match found {
        Some(env) => check_reported(mem, env, actual, actual_size, r),
        None => match r {
            Err(SyscallHintError::BadAddress(_)) => true,
            Err(SyscallHintError::Memory(_)) => true,
            _ => false,
        },
    }
}

/// Checks the data that `env` announces against the `actual_size` cells from
/// `actual`.
pub fn verify_response(
    vm: &VirtualMachine,
    env: &ResponseEnvelope,
    actual: Addr,
    actual_size: Felt,
) -> (r: Result<(), SyscallHintError>)
    ensures
        check_reported(vm_memory(*vm), *env, actual, actual_size, r),
{
    let (expected_ptr, expected_size) = match env.expected_range() {
        Ok(p) => p,
        Err(e) => return Err(SyscallHintError::BadAddress(e)),
    };
    let n = match felt_to_count(&actual_size) {
        Ok(n) => n,
        Err(e) => return Err(SyscallHintError::BadAddress(e)),
    };
    assert_memory_ranges_equal(vm, expected_ptr, expected_size, actual, n)
}

fn field_ptr(vm: &VirtualMachine, base: Addr, field: usize) -> (r: Result<Addr, SyscallHintError>)
    ensures
        r is Ok <==> ptr_cell(vm_memory(*vm), base.spec_add(field as int)) is Some,
        r matches Ok(p) ==> ptr_cell(vm_memory(*vm), base.spec_add(field as int)) == Some(p),
        r matches Err(e) ==> (e is BadAddress || e is Memory),
{
    let at = match base.add_offset(field) {
        Ok(a) => a,
        Err(e) => return Err(SyscallHintError::BadAddress(e)),
    };
    match read_ptr(vm, at) {
        Ok(p) => Ok(p),
        Err(e) => Err(SyscallHintError::Memory(e)),
    }
}

fn field_int(vm: &VirtualMachine, base: Addr, field: usize) -> (r: Result<Felt, SyscallHintError>)
    ensures
        r is Ok <==> int_cell(vm_memory(*vm), base.spec_add(field as int)) is Some,
        r matches Ok(f) ==> int_cell(vm_memory(*vm), base.spec_add(field as int)) == Some(f),
        r matches Err(e) ==> (e is BadAddress || e is Memory),
{
    let at = match base.add_offset(field) {
        Ok(a) => a,
        Err(e) => return Err(SyscallHintError::BadAddress(e)),
    };
    match read_int(vm, at) {
        Ok(f) => Ok(f),
        Err(e) => Err(SyscallHintError::Memory(e)),
    }
}

/// Reads the legacy call response stored at `response_ptr`.
pub fn read_legacy_response(vm: &VirtualMachine, response_ptr: Addr) -> (r: Result<
    ResponseEnvelope,
    SyscallHintError,
>)
    ensures
        r is Ok <==> legacy_envelope_at(vm_memory(*vm), response_ptr) is Some,
        r matches Ok(env) ==> legacy_envelope_at(vm_memory(*vm), response_ptr) == Some(env),
        r matches Err(e) ==> (e is BadAddress || e is Memory),
{
    let retdata = field_ptr(vm, response_ptr, LEGACY_RETDATA_OFFSET)?;
    let retdata_size = field_int(vm, response_ptr, LEGACY_RETDATA_SIZE_OFFSET)?;
    Ok(ResponseEnvelope::Legacy { retdata, retdata_size })
}

/// Reads the current call response stored at `response_ptr`.
pub fn read_ranged_response(vm: &VirtualMachine, response_ptr: Addr) -> (r: Result<
    ResponseEnvelope,
    SyscallHintError,
>)
    ensures
        r is Ok <==> ranged_envelope_at(vm_memory(*vm), response_ptr) is Some,
        r matches Ok(env) ==> ranged_envelope_at(vm_memory(*vm), response_ptr) == Some(env),
        r matches Err(e) ==> (e is BadAddress || e is Memory),
{
    let start = field_ptr(vm, response_ptr, RETDATA_START_OFFSET)?;
    let end = field_ptr(vm, response_ptr, RETDATA_END_OFFSET)?;
    Ok(ResponseEnvelope::Ranged { start, end })
}

/// Reads the current deploy response stored at `response_ptr`.
pub fn read_deploy_response(vm: &VirtualMachine, response_ptr: Addr) -> (r: Result<
    ResponseEnvelope,
    SyscallHintError,
>)
    ensures
        r is Ok <==> deploy_envelope_at(vm_memory(*vm), response_ptr) is Some,
        r matches Ok(env) ==> deploy_envelope_at(vm_memory(*vm), response_ptr) == Some(env),
        r matches Err(e) ==> (e is BadAddress || e is Memory),
{
    let start = field_ptr(vm, response_ptr, CONSTRUCTOR_RETDATA_START_OFFSET)?;
    let end = field_ptr(vm, response_ptr, CONSTRUCTOR_RETDATA_END_OFFSET)?;
    Ok(ResponseEnvelope::DeployRanged { start, end })
}

/// The hint that checks the legacy call response stored at `response_ptr`
/// (`ids.call_response`) against the program's `retdata` pointer and
/// `retdata_size` count.
pub fn check_syscall_response(
    vm: &VirtualMachine,
    response_ptr: Addr,
    retdata: Addr,
    retdata_size: Felt,
) -> (r: Result<(), SyscallHintError>)
    ensures
        r is Ok <==> response_holds(
            vm_memory(*vm),
            legacy_envelope_at(vm_memory(*vm), response_ptr),
            retdata,
            retdata_size,
        ),
        stored_check_reported(
            vm_memory(*vm),
            legacy_envelope_at(vm_memory(*vm), response_ptr),
            retdata,
            retdata_size,
            r,
        ),
{
    let env = read_legacy_response(vm, response_ptr)?;
    verify_response(vm, &env, retdata, retdata_size)
}

/// The hint that checks the current call response stored at `response_ptr`
/// (`ids.response`) against the program's `retdata` pointer and
/// `retdata_size` count.
pub fn check_new_syscall_response(
    vm: &VirtualMachine,
    response_ptr: Addr,
    retdata: Addr,
    retdata_size: Felt,
) -> (r: Result<(), SyscallHintError>)
    ensures
        r is Ok <==> response_holds(
            vm_memory(*vm),
            ranged_envelope_at(vm_memory(*vm), response_ptr),
            retdata,
            retdata_size,
        ),
        stored_check_reported(
            vm_memory(*vm),
            ranged_envelope_at(vm_memory(*vm), response_ptr),
            retdata,
            retdata_size,
            r,
        ),
{
    let env = read_ranged_response(vm, response_ptr)?;
    verify_response(vm, &env, retdata, retdata_size)
}

/// The hint that checks the current deploy response stored at `response_ptr`
/// (`ids.response`) against the program's `retdata` pointer and
/// `retdata_size` count.
pub fn check_new_deploy_response(
    vm: &VirtualMachine,
    response_ptr: Addr,
    retdata: Addr,
    retdata_size: Felt,
) -> (r: Result<(), SyscallHintError>)
    ensures
        r is Ok <==> response_holds(
            vm_memory(*vm),
            deploy_envelope_at(vm_memory(*vm), response_ptr),
            retdata,
            retdata_size,
        ),
        stored_check_reported(
            vm_memory(*vm),
            deploy_envelope_at(vm_memory(*vm), response_ptr),
            retdata,
            retdata_size,
            r,
        ),
{
    let env = read_deploy_response(vm, response_ptr)?;
    verify_response(vm, &env, retdata, retdata_size)
}

/// Range equality decides a response check: for equal lengths and equal cells
/// it passes, and for a different length or any different cell it fails.
pub proof fn lemma_range_check_verdict(mem: Map<Addr, Cell>, e: Addr, n: nat, a: Addr, m: nat)
    ensures
        (n == m && forall|i: int| 0 <= i < n ==> cell_at(mem, e, i) == cell_at(mem, a, i))
            ==> memory_range(mem, e, n) == memory_range(mem, a, m),
        n != m ==> memory_range(mem, e, n) != memory_range(mem, a, m),
        forall|i: int| 0 <= i < n && i < m && cell_at(mem, e, i) != cell_at(mem, a, i)
            ==> memory_range(mem, e, n) != memory_range(mem, a, m),
{
    if n != m {
        assert(memory_range(mem, e, n).len() != memory_range(mem, a, m).len());
    }
    if n == m && forall|i: int| 0 <= i < n ==> cell_at(mem, e, i) == cell_at(mem, a, i) {
        assert(memory_range(mem, e, n) =~= memory_range(mem, a, m));
    }
    assert forall|i: int| 0 <= i < n && i < m && cell_at(mem, e, i) != cell_at(mem, a, i)
        implies memory_range(mem, e, n) != memory_range(mem, a, m) by {
        assert(memory_range(mem, e, n)[i] == cell_at(mem, e, i));
        assert(memory_range(mem, a, m)[i] == cell_at(mem, a, i));
    }
}

/// The two call-response encodings agree: a legacy envelope and a ranged one
/// that announce the same cells give the same verdict for any program data.
pub proof fn lemma_encoding_equivalence(
    mem: Map<Addr, Cell>,
    retdata: Addr,
    retdata_size: Felt,
    end: Addr,
    actual: Addr,
    actual_size: Felt,
)
    requires
        end.segment == retdata.segment,
        end.offset == retdata.offset + retdata_size.value(),
    ensures
        response_matches(mem, ResponseEnvelope::Legacy { retdata, retdata_size }, actual, actual_size)
            == response_matches(mem, ResponseEnvelope::Ranged { start: retdata, end }, actual, actual_size),
{
}

} // verus!
