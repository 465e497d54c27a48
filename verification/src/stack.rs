//! Geometry of the exception stack.

use vstd::prelude::*;
use crate::address::{is_canonical, is_canonical_address, offset_address};

verus! {

/// Size in bytes of the exception stack: five pages, 20 KiB.
pub const STACK_SIZE: usize = 20480;

/// Alignment in bytes that the platform's calling convention asks of a stack.
pub const STACK_ALIGNMENT: u64 = 16;

/// The interrupt stack table slot that serves the double-fault handler.
pub const DOUBLE_FAULT_IST_INDEX: u16 = 0;

/// The address one past the end of a stack that starts at `stack_start`.
pub open spec fn stack_end_of(stack_start: int) -> int {
    stack_start + STACK_SIZE
}

/// A stack region can be addressed when its first byte and the address one past
/// its last byte are both canonical. (They then lie in the same half.)
pub open spec fn stack_is_addressable(stack_start: int) -> bool {
    is_canonical(stack_start) && is_canonical(stack_end_of(stack_start))
}

/// Tells whether a stack that starts at `stack_start` can be addressed.
pub fn stack_fits(stack_start: u64) -> (fits: bool)
    ensures
        fits == stack_is_addressable(stack_start as int),
{
    if !is_canonical_address(stack_start) {
        return false;
    }
    match stack_start.checked_add(STACK_SIZE as u64) {
        Some(end) => is_canonical_address(end),
        None => false,
    }
}

/// The top of the exception stack: the address one past the end of the region
/// that starts at `stack_start`. The top is as aligned as the start is.
pub fn exception_stack_top(stack_start: u64) -> (stack_end: u64)
    requires
        stack_is_addressable(stack_start as int),
    ensures
        stack_end == stack_end_of(stack_start as int),
        stack_end % STACK_ALIGNMENT == stack_start % STACK_ALIGNMENT,
        is_canonical(stack_end as int),
{
    offset_address(stack_start, STACK_SIZE)
}

/// The top of a stack that starts on a 16-byte boundary lies on a 16-byte
/// boundary: the size of the stack is a multiple of the alignment.
pub proof fn lemma_aligned_stack_has_aligned_top(stack_start: int)
    requires
        stack_start % STACK_ALIGNMENT as int == 0,
    ensures
        stack_end_of(stack_start) % STACK_ALIGNMENT as int == 0,
        stack_end_of(stack_start) == stack_start + 20480,
{
}

} // verus!
