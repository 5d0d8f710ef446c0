//! Rounding addresses up to a power-of-two boundary.

use vstd::prelude::*;

verus! {

/// Whether `alignment` is a power of two.
pub open spec fn is_power_of_two(alignment: usize) -> bool {
    alignment != 0 && alignment & ((alignment - 1) as usize) == 0
}

/// The first multiple of `alignment` at or after `address`. `alignment` must
/// be a power of two, and the result must fit in a `usize`.
pub fn align_up(address: usize, alignment: usize) -> (r: usize)
    requires
        is_power_of_two(alignment),
        address + alignment - 1 <= usize::MAX,
    ensures
        r & ((alignment - 1) as usize) == 0,
        address <= r,
        r - address < alignment,
{
    let mask = alignment - 1;
    let r = if address & mask == 0 {
        address
    } else {
        assert({
            &&& ((address + mask) as usize & !mask) & mask == 0
            &&& address <= ((address + mask) as usize & !mask)
            &&& ((address + mask) as usize & !mask) - address < mask + 1
        }) by (bit_vector)
            requires
                ((mask + 1) as usize) & mask == 0,
                (address + mask) as usize >= address,
        ;
        (address + mask) & !mask
    };
    r
}

} // verus!
