//! Register accesses expressed as values.

use vstd::prelude::*;

verus! {

/// A 32-bit write of `value` to the register at byte `offset` of a device's
/// register block.
#[derive(Clone, Copy, Debug, PartialEq, Eq, Structural)]
pub struct RegWrite {
    pub offset: usize,
    pub value: u32,
}

/// Tests bit `bit` of a register value.
pub fn bit_set(value: u32, bit: u32) -> (r: bool)
    requires
        bit < 32,
    ensures
        r == ((value >> bit) & 1u32 == 1u32),
{
    (value >> bit) & 1 == 1
}

} // verus!
