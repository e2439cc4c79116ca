//! Extension point policy: disabling of legacy extension points.
use vstd::prelude::*;

use crate::category::MitigationCategory;
use crate::commit::{commit, outcome_of, MitigationError};
use crate::flags::{set_flag, with_flag, FLAG_WIDTH};

verus! {

/// Position of the `DisableExtensionPoints` flag.
pub const DISABLE_EXTENSION_POINTS: u32 = 0;

/// Builder for the extension point policy.
#[derive(Clone, Copy)]
pub struct ExtensionPointPolicy {
    flags: u32,
}

impl View for ExtensionPointPolicy {
    type V = u32;

    /// The accumulated flag mask.
    closed spec fn view(&self) -> u32 {
        self.flags
    }
}

impl ExtensionPointPolicy {
    /// A builder with every flag off.
    pub fn new() -> (r: Self)
        ensures
            r@ == 0,
    {
        ExtensionPointPolicy { flags: 0 }
    }

    /// The flag mask accumulated so far.
    pub fn flags(&self) -> (r: u32)
        ensures
            r == self@,
    {
        self.flags
    }

    /// Commits the mask under the extension point category through `entry_point`,
    /// which applies it to the process and reports a status (zero on success).
    pub fn build<F>(self, entry_point: F) -> (r: Result<(), MitigationError>) where
        F: FnOnce(MitigationCategory, u32) -> i32,
        requires
            entry_point.requires((MitigationCategory::ExtensionPoint, self@)),
        ensures
            exists|status: i32|
                #![trigger entry_point.ensures((MitigationCategory::ExtensionPoint, self@), status)]
                entry_point.ensures((MitigationCategory::ExtensionPoint, self@), status) && r == outcome_of(
                    status,
                ),
    {
        commit(MitigationCategory::ExtensionPoint, self.flags, entry_point)
    }

    /// Turns on the `DisableExtensionPoints` flag when `status` holds; `false` leaves the mask
    /// as it is.
    pub fn set_disable_extension_points(&mut self, status: bool) -> (r: &mut Self)
        ensures
            r@ == with_flag(old(self)@, DISABLE_EXTENSION_POINTS, status),
            *final(self) == *final(r),
    {
        self.flags = set_flag(self.flags, DISABLE_EXTENSION_POINTS, status);
        self
    }

    /// Turns on the flag at an arbitrary `position` when `status` holds, for
    /// flags that have no setter of their own.
    pub fn custom_set(&mut self, position: u32, status: bool) -> (r: &mut Self)
        requires
            position < FLAG_WIDTH,
        ensures
            r@ == with_flag(old(self)@, position, status),
            *final(self) == *final(r),
    {
        self.flags = set_flag(self.flags, position, status);
        self
    }
}

impl Default for ExtensionPointPolicy {
    fn default() -> (r: Self)
        ensures
            r@ == 0,
    {
        Self::new()
    }
}

} // verus!
