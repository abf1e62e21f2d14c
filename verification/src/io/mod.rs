//! The chips behind the I/O region: each a file of byte registers that is
//! mirrored through the window that the address decoder gives it.

pub mod cia;
pub mod sid;
pub mod vic;

use vstd::prelude::*;

verus! {

/// The register that an address selects in a window that starts at `base` and
/// repeats a file of `count` registers.
pub open spec fn register_index(addr: int, base: int, count: int) -> int {
    (addr - base) % count
}

} // verus!
