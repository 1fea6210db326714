use vstd::prelude::*;

verus! {

/// Whether bit `index` of `flag` is set, bits numbered from the least
/// significant. Total: any index outside 0..8 selects no bit and yields
/// false.
pub open spec fn spec_is_bit_active(flag: u8, index: u8) -> bool {
    if index < 8 {
        ((flag >> index) & 1) == 1
    } else {
        false
    }
}

/// Stateless helper for testing individual bits of an 8-bit flag byte.
pub struct FlagBits;

impl FlagBits {
    /// Test whether bit `index` (0 = least significant) of `flag` is set.
    ///
    /// Total over both arguments: an index past the top bit selects
    /// nothing and yields false.
    pub fn is_bit_active(flag: u8, index: u8) -> (r: bool)
        ensures
            r == spec_is_bit_active(flag, index),
    {
        if index < 8 {
            ((flag >> index) & 1) == 1
        } else {
            false
        }
    }
}

} // verus!
