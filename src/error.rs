use vstd::prelude::*;

use cairo_vm::vm::errors::hint_errors::HintError;
use cairo_vm::vm::errors::memory_errors::MemoryError;

use crate::addr::{AddressFault, Cell};
use crate::felt::Felt;

verus! {

/// A value that the proven program claims differs from the one it must equal.
#[derive(Debug)]
pub enum Mismatch {
    /// The program's `value` cell against the oracle's storage value.
    StorageValue { observed: Felt, stored: Felt },
    /// The response's return data against the program's own return data.
    ReturnData { expected: Vec<Option<Cell>>, actual: Vec<Option<Cell>> },
}

/// A broken programming invariant: the caller misused the layer.
#[derive(Clone, Copy, Debug, PartialEq, Eq, Structural)]
pub enum Violation {
    /// The state-changes dictionary is a default-valued one.
    DefaultDictionary,
    /// The state-changes dictionary has no entry for the contract.
    MissingStateEntry,
}

/// What a syscall hint reports when it fails.
#[derive(Debug)]
pub enum SyscallHintError {
    /// No handler is bound to the hint's code.
    UnknownHint,
    /// Invalid address arithmetic or an out-of-range count.
    BadAddress(AddressFault),
    /// The oracle has no storage value for the pair.
    OracleMiss { contract: Felt, key: Felt },
    /// A claim of the program differs from what it must equal.
    Inconsistency(Mismatch),
    /// The caller broke an invariant of this layer.
    InvariantViolation(Violation),
    /// A memory cell could not be read or written.
    Memory(MemoryError),
    /// An identifier could not be resolved, or a collaborator failed.
    Hint(HintError),
}

} // verus!
