//! Syscall bridge hints of a Cairo OS run: the handlers that the interpreter
//! runs at syscall hint sites, the response verifier, the state-entry fetch and
//! the storage consistency check, over a model of VM memory.
use vstd::prelude::*;

pub mod felt;
pub mod addr;
pub mod error;
pub mod vm;
pub mod response;
pub mod segment;
pub mod state_entry;
pub mod storage;
pub mod dispatch;
pub mod syscalls;

verus! {

} // verus!
