//! Status flags of file descriptors.
use vstd::prelude::*;

use crate::platform::nonblocking_bit;

verus! {

/// Adds a bit to the status flags of a descriptor, and keeps the others.
pub fn with_status_bit(flags: i32, bit: i32) -> (all: i32)
    ensures
        all == flags | bit,
        all & flags == flags,
        all & bit == bit,
{
    assert((flags | bit) & flags == flags) by (bit_vector);
    assert((flags | bit) & bit == bit) by (bit_vector);
    flags | bit
}

/// The status flags of a descriptor, once reads from it no longer wait: the flag that says
/// so on this target is added, and nothing else is changed.
pub fn nonblocking_flags(flags: i32) -> (all: i32)
    ensures
        all == flags | 0x800 || all == flags | 0x80 || all == flags | 0x4000,
        all & flags == flags,
{
    with_status_bit(flags, nonblocking_bit())
}

} // verus!
