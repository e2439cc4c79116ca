//! Strict handle check policy: treatment of invalid handle references.
use vstd::prelude::*;

use crate::category::MitigationCategory;
use crate::commit::{commit, outcome_of, MitigationError};
use crate::flags::{set_flag, with_flag, FLAG_WIDTH};

verus! {

/// Position of the `RaiseExceptionOnInvalidHandleReference` flag.
pub const RAISE_EXCEPTION_ON_INVALID_HANDLE_REFERENCE: u32 = 0;

/// Position of the `HandleExceptionsPermanentlyEnabled` flag.
pub const HANDLE_EXCEPTIONS_PERMANENTLY_ENABLED: u32 = 1;

/// Builder for the strict handle check policy.
#[derive(Clone, Copy)]
pub struct StrictHandlePolicy {
    flags: u32,
}

impl View for StrictHandlePolicy {
    type V = u32;

    /// The accumulated flag mask.
    closed spec fn view(&self) -> u32 {
        self.flags
    }
}

impl StrictHandlePolicy {
    /// A builder with every flag off.
    pub fn new() -> (r: Self)
        ensures
            r@ == 0,
    {
        StrictHandlePolicy { flags: 0 }
    }

    /// The flag mask accumulated so far.
    pub fn flags(&self) -> (r: u32)
        ensures
            r == self@,
    {
        self.flags
    }

    /// Commits the mask under the strict handle check category through `entry_point`,
    /// which applies it to the process and reports a status (zero on success).
    pub fn build<F>(self, entry_point: F) -> (r: Result<(), MitigationError>) where
        F: FnOnce(MitigationCategory, u32) -> i32,
        requires
            entry_point.requires((MitigationCategory::StrictHandleCheck, self@)),
        ensures
            exists|status: i32|
                #![trigger entry_point.ensures((MitigationCategory::StrictHandleCheck, self@), status)]
                entry_point.ensures((MitigationCategory::StrictHandleCheck, self@), status) && r == outcome_of(
                    status,
                ),
    {
        commit(MitigationCategory::StrictHandleCheck, self.flags, entry_point)
    }

    /// Turns on the `RaiseExceptionOnInvalidHandleReference` flag when `status` holds; `false` leaves the mask
    /// as it is.
    pub fn set_raise_exception_on_invalid_handle_reference(&mut self, status: bool) -> (r: &mut Self)
        ensures
            r@ == with_flag(old(self)@, RAISE_EXCEPTION_ON_INVALID_HANDLE_REFERENCE, status),
            *final(self) == *final(r),
    {
        self.flags = set_flag(self.flags, RAISE_EXCEPTION_ON_INVALID_HANDLE_REFERENCE, status);
        self
    }

    /// Turns on the `HandleExceptionsPermanentlyEnabled` flag when `status` holds; `false` leaves the mask
    /// as it is.
    pub fn set_handle_exceptions_permanently_enabled(&mut self, status: bool) -> (r: &mut Self)
        ensures
            r@ == with_flag(old(self)@, HANDLE_EXCEPTIONS_PERMANENTLY_ENABLED, status),
            *final(self) == *final(r),
    {
        self.flags = set_flag(self.flags, HANDLE_EXCEPTIONS_PERMANENTLY_ENABLED, status);
        self
    }

    /// Turns on the flag at an arbitrary `position` when `status` holds, for
    /// flags that have no setter of their own.
    pub fn custom_set(&mut self, position: u32, status: bool) -> (r: &mut Self)
        requires
            position < FLAG_WIDTH,
        ensures
            r@ == with_flag(old(self)@, position, status),
            *final(self) == *final(r),
    {
        self.flags = set_flag(self.flags, position, status);
        self
    }
}

impl Default for StrictHandlePolicy {
    fn default() -> (r: Self)
        ensures
            r@ == 0,
    {
        Self::new()
    }
}

} // verus!
