//! Laws that hold of every policy builder, stated over the mask model that
//! the builders' contracts use.
use vstd::prelude::*;

use crate::category::{lemma_named_positions_valid, named_positions, MitigationCategory};
use crate::flags::{flag_bit, flag_is_set, lemma_with_flag_bit, with_flag, FLAG_WIDTH};

verus! {

/// Turning on one named flag of any category in a fresh (all-zero) mask gives
/// the mask with that flag's bit set and every other bit clear.
pub proof fn lemma_named_flag_alone(category: MitigationCategory, k: int)
    requires
        0 <= k < named_positions(category).len(),
    ensures
        with_flag(0, named_positions(category)[k], true) == flag_bit(named_positions(category)[k]),
        forall|i: u32|
            i < FLAG_WIDTH ==> (#[trigger] flag_is_set(
                with_flag(0, named_positions(category)[k], true),
                i,
            ) <==> i == named_positions(category)[k]),
{
    lemma_named_positions_valid(category);
    let p = named_positions(category)[k];
    assert(0u32 | (1u32 << p) == 1u32 << p) by (bit_vector);
    assert forall|i: u32| i < FLAG_WIDTH implies (#[trigger] flag_is_set(with_flag(0, p, true), i)
        <==> i == p) by {
        lemma_with_flag_bit(0, p, true, i);
        assert(!((0u32 >> i) & 1u32 == 1u32)) by (bit_vector);
    }
}

/// Turning the same flag on twice gives the same mask as turning it on once.
pub proof fn lemma_set_twice(bits: u32, position: u32)
    requires
        position < FLAG_WIDTH,
    ensures
        with_flag(with_flag(bits, position, true), position, true) == with_flag(
            bits,
            position,
            true,
        ),
{
    assert((bits | (1u32 << position)) | (1u32 << position) == bits | (1u32 << position))
        by (bit_vector);
}

/// Passing `false` to a setter leaves the mask unchanged; in particular a bit
/// that was clear stays clear.
pub proof fn lemma_false_leaves_mask(bits: u32, position: u32)
    requires
        position < FLAG_WIDTH,
    ensures
        with_flag(bits, position, false) == bits,
        !flag_is_set(bits, position) ==> !flag_is_set(with_flag(bits, position, false), position),
{
}

/// The escape-hatch setter at a named flag's position is admissible and turns
/// on exactly what that flag's own setter turns on.
pub proof fn lemma_custom_matches_named(
    category: MitigationCategory,
    k: int,
    position: u32,
    bits: u32,
)
    requires
        0 <= k < named_positions(category).len(),
        position == named_positions(category)[k],
    ensures
        position < FLAG_WIDTH,
        with_flag(bits, position, true) == with_flag(bits, named_positions(category)[k], true),
{
    lemma_named_positions_valid(category);
}

} // verus!
