//! Font disable policy: loading of non-system fonts.
use vstd::prelude::*;

use crate::category::MitigationCategory;
use crate::commit::{commit, outcome_of, MitigationError};
use crate::flags::{set_flag, with_flag, FLAG_WIDTH};

verus! {

/// Position of the `DisableNonSystemFonts` flag.
pub const DISABLE_NON_SYSTEM_FONTS: u32 = 0;

/// Position of the `AuditNonSystemFontLoading` flag.
pub const AUDIT_NON_SYSTEM_FONT_LOADING: u32 = 1;

/// Builder for the font disable policy.
#[derive(Clone, Copy)]
pub struct FontDisablePolicy {
    flags: u32,
}

impl View for FontDisablePolicy {
    type V = u32;

    /// The accumulated flag mask.
    closed spec fn view(&self) -> u32 {
        self.flags
    }
}

impl FontDisablePolicy {
    /// A builder with every flag off.
    pub fn new() -> (r: Self)
        ensures
            r@ == 0,
    {
        FontDisablePolicy { flags: 0 }
    }

    /// The flag mask accumulated so far.
    pub fn flags(&self) -> (r: u32)
        ensures
            r == self@,
    {
        self.flags
    }

    /// Commits the mask under the font disable category through `entry_point`,
    /// which applies it to the process and reports a status (zero on success).
    pub fn build<F>(self, entry_point: F) -> (r: Result<(), MitigationError>) where
        F: FnOnce(MitigationCategory, u32) -> i32,
        requires
            entry_point.requires((MitigationCategory::FontDisable, self@)),
        ensures
            exists|status: i32|
                #![trigger entry_point.ensures((MitigationCategory::FontDisable, self@), status)]
                entry_point.ensures((MitigationCategory::FontDisable, self@), status) && r == outcome_of(
                    status,
                ),
    {
        commit(MitigationCategory::FontDisable, self.flags, entry_point)
    }

    /// Turns on the `DisableNonSystemFonts` flag when `status` holds; `false` leaves the mask
    /// as it is.
    pub fn set_disable_non_system_fonts(&mut self, status: bool) -> (r: &mut Self)
        ensures
            r@ == with_flag(old(self)@, DISABLE_NON_SYSTEM_FONTS, status),
            *final(self) == *final(r),
    {
        self.flags = set_flag(self.flags, DISABLE_NON_SYSTEM_FONTS, status);
        self
    }

    /// Turns on the `AuditNonSystemFontLoading` flag when `status` holds; `false` leaves the mask
    /// as it is.
    pub fn set_audit_non_system_font_loading(&mut self, status: bool) -> (r: &mut Self)
        ensures
            r@ == with_flag(old(self)@, AUDIT_NON_SYSTEM_FONT_LOADING, status),
            *final(self) == *final(r),
    {
        self.flags = set_flag(self.flags, AUDIT_NON_SYSTEM_FONT_LOADING, status);
        self
    }

    /// Turns on the flag at an arbitrary `position` when `status` holds, for
    /// flags that have no setter of their own.
    pub fn custom_set(&mut self, position: u32, status: bool) -> (r: &mut Self)
        requires
            position < FLAG_WIDTH,
        ensures
            r@ == with_flag(old(self)@, position, status),
            *final(self) == *final(r),
    {
        self.flags = set_flag(self.flags, position, status);
        self
    }
}

impl Default for FontDisablePolicy {
    fn default() -> (r: Self)
        ensures
            r@ == 0,
    {
        Self::new()
    }
}

} // verus!
