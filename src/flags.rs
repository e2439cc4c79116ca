//! The bitmask model shared by every policy builder.
use vstd::prelude::*;

verus! {

/// Number of flag positions in a policy mask.
pub const FLAG_WIDTH: u32 = 32;

/// The mask with only bit `position` set.
pub open spec fn flag_bit(position: u32) -> u32 {
    1u32 << position
}

/// Whether bit `position` of `bits` is set.
pub open spec fn flag_is_set(bits: u32, position: u32) -> bool {
    (bits >> position) & 1u32 == 1u32
}

/// The mask after a setter call: `true` turns bit `position` on, `false`
/// leaves the mask exactly as it was (a set flag is never cleared).
pub open spec fn with_flag(bits: u32, position: u32, status: bool) -> u32 {
    if status {
        bits | flag_bit(position)
    } else {
        bits
    }
}

/// Applies one setter call to a mask.
pub fn set_flag(bits: u32, position: u32, status: bool) -> (r: u32)
    requires
        position < FLAG_WIDTH,
    ensures
        r == with_flag(bits, position, status),
{
    if status {
        bits | (1u32 << position)
    } else {
        bits
    }
}

/// Bit `i` of a mask after a setter call is set exactly when it was set before,
/// or the call turned on that very position.
pub proof fn lemma_with_flag_bit(bits: u32, position: u32, status: bool, i: u32)
    requires
        position < FLAG_WIDTH,
        i < FLAG_WIDTH,
    ensures
        flag_is_set(with_flag(bits, position, status), i) == (flag_is_set(bits, i) || (status
            && i == position)),
{
    if status {
        assert(((bits | (1u32 << position)) >> i) & 1u32 == 1u32 <==> ((bits >> i) & 1u32 == 1u32
            || i == position)) by (bit_vector)
            requires
                position < 32,
                i < 32,
        ;
    }
}

} // verus!
