//! Result types and memory addresses used across the crate.

use vstd::prelude::*;

pub mod types;

verus! {

/// Address of a 32-bit hardware register or memory word.
pub type MemoryAddress = usize;

/// Types a raw numeric address as a [`MemoryAddress`].
pub fn mem_addr(addr: usize) -> (address: MemoryAddress)
    ensures
        address == addr,
{
    addr
}

} // verus!
