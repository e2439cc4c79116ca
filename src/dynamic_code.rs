//! Dynamic code policy: whether the process may generate or modify code.
use vstd::prelude::*;

use crate::category::MitigationCategory;
use crate::commit::{commit, outcome_of, MitigationError};
use crate::flags::{set_flag, with_flag, FLAG_WIDTH};

verus! {

/// Position of the `ProhibitDynamicCode` flag.
pub const PROHIBIT_DYNAMIC_CODE: u32 = 0;

/// Position of the `AllowThreadOptOut` flag.
pub const ALLOW_THREAD_OPT_OUT: u32 = 1;

/// Position of the `AllowRemoteDowngrade` flag.
pub const ALLOW_REMOTE_DOWNGRADE: u32 = 2;

/// Position of the `AuditProhibitDynamicCode` flag.
pub const AUDIT_PROHIBIT_DYNAMIC_CODE: u32 = 3;

/// Builder for the dynamic code policy.
#[derive(Clone, Copy)]
pub struct DynamicCodePolicy {
    flags: u32,
}

impl View for DynamicCodePolicy {
    type V = u32;

    /// The accumulated flag mask.
    closed spec fn view(&self) -> u32 {
        self.flags
    }
}

impl DynamicCodePolicy {
    /// A builder with every flag off.
    pub fn new() -> (r: Self)
        ensures
            r@ == 0,
    {
        DynamicCodePolicy { flags: 0 }
    }

    /// The flag mask accumulated so far.
    pub fn flags(&self) -> (r: u32)
        ensures
            r == self@,
    {
        self.flags
    }

    /// Commits the mask under the dynamic code category through `entry_point`,
    /// which applies it to the process and reports a status (zero on success).
    pub fn build<F>(self, entry_point: F) -> (r: Result<(), MitigationError>) where
        F: FnOnce(MitigationCategory, u32) -> i32,
        requires
            entry_point.requires((MitigationCategory::DynamicCode, self@)),
        ensures
            exists|status: i32|
                #![trigger entry_point.ensures((MitigationCategory::DynamicCode, self@), status)]
                entry_point.ensures((MitigationCategory::DynamicCode, self@), status) && r == outcome_of(
                    status,
                ),
    {
        commit(MitigationCategory::DynamicCode, self.flags, entry_point)
    }

    /// Turns on the `ProhibitDynamicCode` flag when `status` holds; `false` leaves the mask
    /// as it is.
    pub fn set_prohibit_dynamic_code(&mut self, status: bool) -> (r: &mut Self)
        ensures
            r@ == with_flag(old(self)@, PROHIBIT_DYNAMIC_CODE, status),
            *final(self) == *final(r),
    {
        self.flags = set_flag(self.flags, PROHIBIT_DYNAMIC_CODE, status);
        self
    }

    /// Turns on the `AllowThreadOptOut` flag when `status` holds; `false` leaves the mask
    /// as it is.
    pub fn set_allow_thread_opt_out(&mut self, status: bool) -> (r: &mut Self)
        ensures
            r@ == with_flag(old(self)@, ALLOW_THREAD_OPT_OUT, status),
            *final(self) == *final(r),
    {
        self.flags = set_flag(self.flags, ALLOW_THREAD_OPT_OUT, status);
        self
    }

    /// Turns on the `AllowRemoteDowngrade` flag when `status` holds; `false` leaves the mask
    /// as it is.
    pub fn set_allow_remote_downgrade(&mut self, status: bool) -> (r: &mut Self)
        ensures
            r@ == with_flag(old(self)@, ALLOW_REMOTE_DOWNGRADE, status),
            *final(self) == *final(r),
    {
        self.flags = set_flag(self.flags, ALLOW_REMOTE_DOWNGRADE, status);
        self
    }

    /// Turns on the `AuditProhibitDynamicCode` flag when `status` holds; `false` leaves the mask
    /// as it is.
    pub fn set_audit_prohibit_dynamic_code(&mut self, status: bool) -> (r: &mut Self)
        ensures
            r@ == with_flag(old(self)@, AUDIT_PROHIBIT_DYNAMIC_CODE, status),
            *final(self) == *final(r),
    {
        self.flags = set_flag(self.flags, AUDIT_PROHIBIT_DYNAMIC_CODE, status);
        self
    }

    /// Turns on the flag at an arbitrary `position` when `status` holds, for
    /// flags that have no setter of their own.
    pub fn custom_set(&mut self, position: u32, status: bool) -> (r: &mut Self)
        requires
            position < FLAG_WIDTH,
        ensures
            r@ == with_flag(old(self)@, position, status),
            *final(self) == *final(r),
    {
        self.flags = set_flag(self.flags, position, status);
        self
    }
}

impl Default for DynamicCodePolicy {
    fn default() -> (r: Self)
        ensures
            r@ == 0,
    {
        Self::new()
    }
}

} // verus!
