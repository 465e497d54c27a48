//! Canonical virtual addresses.

use vstd::prelude::*;

verus! {

/// The first address above the lower canonical half.
pub const LOWER_HALF_END: u64 = 0x0000_8000_0000_0000;

/// The first address of the upper canonical half.
pub const UPPER_HALF_START: u64 = 0xFFFF_8000_0000_0000;

/// An address is canonical when its bits 47 to 63 are all equal: it lies in the
/// lower half, below 2^47, or in the upper half, from 2^64 - 2^47 on.
pub open spec fn is_canonical(addr: int) -> bool {
    0 <= addr < LOWER_HALF_END || UPPER_HALF_START <= addr <= u64::MAX
}

/// Tells whether `addr` is canonical.
pub fn is_canonical_address(addr: u64) -> (canonical: bool)
    ensures
        canonical == is_canonical(addr as int),
{
    addr < LOWER_HALF_END || addr >= UPPER_HALF_START
}

/// `VirtAddr + usize` of x86_64, on plain integers. The base is made into an
/// address with `VirtAddr::new`, which keeps a canonical value as it is; the
/// addition adds the offset to the raw value and passes the sum through
/// `VirtAddr::new` again. With both the base and the sum canonical nothing is
/// sign-extended and nothing panics, and the result is the arithmetic sum.
#[verifier::external_body]
pub(crate) fn offset_address(base: u64, offset: usize) -> (sum: u64)
    requires
        is_canonical(base as int),
        is_canonical(base + offset),
    ensures
        sum == base + offset,
{
    (x86_64::VirtAddr::new(base) + offset).as_u64()
}

} // verus!
