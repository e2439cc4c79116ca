//! Address-space layout randomization policy.
use vstd::prelude::*;

use crate::category::MitigationCategory;
use crate::commit::{commit, outcome_of, MitigationError};
use crate::flags::{set_flag, with_flag, FLAG_WIDTH};

verus! {

/// Position of the `EnableBottomUpRandomization` flag.
pub const ENABLE_BOTTOM_UP_RANDOMIZATION: u32 = 0;

/// Position of the `EnableForceRelocateImages` flag.
pub const ENABLE_FORCE_RELOCATE_IMAGES: u32 = 1;

/// Position of the `EnableHighEntropy` flag.
pub const ENABLE_HIGH_ENTROPY: u32 = 2;

/// Position of the `DisallowStrippedImages` flag.
pub const DISALLOW_STRIPPED_IMAGES: u32 = 3;

/// Builder for the address-space layout randomization policy.
#[derive(Clone, Copy)]
pub struct AslrPolicy {
    flags: u32,
}

impl View for AslrPolicy {
    type V = u32;

    /// The accumulated flag mask.
    closed spec fn view(&self) -> u32 {
        self.flags
    }
}

impl AslrPolicy {
    /// A builder with every flag off.
    pub fn new() -> (r: Self)
        ensures
            r@ == 0,
    {
        AslrPolicy { flags: 0 }
    }

    /// The flag mask accumulated so far.
    pub fn flags(&self) -> (r: u32)
        ensures
            r == self@,
    {
        self.flags
    }

    /// Commits the mask under the address-space layout randomization category through `entry_point`,
    /// which applies it to the process and reports a status (zero on success).
    pub fn build<F>(self, entry_point: F) -> (r: Result<(), MitigationError>) where
        F: FnOnce(MitigationCategory, u32) -> i32,
        requires
            entry_point.requires((MitigationCategory::Aslr, self@)),
        ensures
            exists|status: i32|
                #![trigger entry_point.ensures((MitigationCategory::Aslr, self@), status)]
                entry_point.ensures((MitigationCategory::Aslr, self@), status) && r == outcome_of(
                    status,
                ),
    {
        commit(MitigationCategory::Aslr, self.flags, entry_point)
    }

    /// Turns on the `EnableBottomUpRandomization` flag when `status` holds; `false` leaves the mask
    /// as it is.
    pub fn set_enable_bottom_up_randomization(&mut self, status: bool) -> (r: &mut Self)
        ensures
            r@ == with_flag(old(self)@, ENABLE_BOTTOM_UP_RANDOMIZATION, status),
            *final(self) == *final(r),
    {
        self.flags = set_flag(self.flags, ENABLE_BOTTOM_UP_RANDOMIZATION, status);
        self
    }

    /// Turns on the `EnableForceRelocateImages` flag when `status` holds; `false` leaves the mask
    /// as it is.
    pub fn set_enable_force_relocate_images(&mut self, status: bool) -> (r: &mut Self)
        ensures
            r@ == with_flag(old(self)@, ENABLE_FORCE_RELOCATE_IMAGES, status),
            *final(self) == *final(r),
    {
        self.flags = set_flag(self.flags, ENABLE_FORCE_RELOCATE_IMAGES, status);
        self
    }

    /// Turns on the `EnableHighEntropy` flag when `status` holds; `false` leaves the mask
    /// as it is.
    pub fn set_enable_high_entropy(&mut self, status: bool) -> (r: &mut Self)
        ensures
            r@ == with_flag(old(self)@, ENABLE_HIGH_ENTROPY, status),
            *final(self) == *final(r),
    {
        self.flags = set_flag(self.flags, ENABLE_HIGH_ENTROPY, status);
        self
    }

    /// Turns on the `DisallowStrippedImages` flag when `status` holds; `false` leaves the mask
    /// as it is.
    pub fn set_disallow_stripped_images(&mut self, status: bool) -> (r: &mut Self)
        ensures
            r@ == with_flag(old(self)@, DISALLOW_STRIPPED_IMAGES, status),
            *final(self) == *final(r),
    {
        self.flags = set_flag(self.flags, DISALLOW_STRIPPED_IMAGES, status);
        self
    }

    /// Turns on the flag at an arbitrary `position` when `status` holds, for
    /// flags that have no setter of their own.
    pub fn custom_set(&mut self, position: u32, status: bool) -> (r: &mut Self)
        requires
            position < FLAG_WIDTH,
        ensures
            r@ == with_flag(old(self)@, position, status),
            *final(self) == *final(r),
    {
        self.flags = set_flag(self.flags, position, status);
        self
    }
}

impl Default for AslrPolicy {
    fn default() -> (r: Self)
        ensures
            r@ == 0,
    {
        Self::new()
    }
}

} // verus!
