//! Child process policy: whether the process may create children.
use vstd::prelude::*;

use crate::category::MitigationCategory;
use crate::commit::{commit, outcome_of, MitigationError};
use crate::flags::{set_flag, with_flag, FLAG_WIDTH};

verus! {

/// Position of the `NoChildProcessCreation` flag.
pub const NO_CHILD_PROCESS_CREATION: u32 = 0;

/// Position of the `AuditNoChildProcessCreation` flag.
pub const AUDIT_NO_CHILD_PROCESS_CREATION: u32 = 1;

/// Position of the `AllowSecureProcessCreation` flag.
pub const ALLOW_SECURE_PROCESS_CREATION: u32 = 2;

/// Builder for the child process policy.
#[derive(Clone, Copy)]
pub struct ChildProcessPolicy {
    flags: u32,
}

impl View for ChildProcessPolicy {
    type V = u32;

    /// The accumulated flag mask.
    closed spec fn view(&self) -> u32 {
        self.flags
    }
}

impl ChildProcessPolicy {
    /// A builder with every flag off.
    pub fn new() -> (r: Self)
        ensures
            r@ == 0,
    {
        ChildProcessPolicy { flags: 0 }
    }

    /// The flag mask accumulated so far.
    pub fn flags(&self) -> (r: u32)
        ensures
            r == self@,
    {
        self.flags
    }

    /// Commits the mask under the child process category through `entry_point`,
    /// which applies it to the process and reports a status (zero on success).
    pub fn build<F>(self, entry_point: F) -> (r: Result<(), MitigationError>) where
        F: FnOnce(MitigationCategory, u32) -> i32,
        requires
            entry_point.requires((MitigationCategory::ChildProcess, self@)),
        ensures
            exists|status: i32|
                #![trigger entry_point.ensures((MitigationCategory::ChildProcess, self@), status)]
                entry_point.ensures((MitigationCategory::ChildProcess, self@), status) && r == outcome_of(
                    status,
                ),
    {
        commit(MitigationCategory::ChildProcess, self.flags, entry_point)
    }

    /// Turns on the `NoChildProcessCreation` flag when `status` holds; `false` leaves the mask
    /// as it is.
    pub fn set_no_child_process_creation(&mut self, status: bool) -> (r: &mut Self)
        ensures
            r@ == with_flag(old(self)@, NO_CHILD_PROCESS_CREATION, status),
            *final(self) == *final(r),
    {
        self.flags = set_flag(self.flags, NO_CHILD_PROCESS_CREATION, status);
        self
    }

    /// Turns on the `AuditNoChildProcessCreation` flag when `status` holds; `false` leaves the mask
    /// as it is.
    pub fn set_audit_no_child_process_creation(&mut self, status: bool) -> (r: &mut Self)
        ensures
            r@ == with_flag(old(self)@, AUDIT_NO_CHILD_PROCESS_CREATION, status),
            *final(self) == *final(r),
    {
        self.flags = set_flag(self.flags, AUDIT_NO_CHILD_PROCESS_CREATION, status);
        self
    }

    /// Turns on the `AllowSecureProcessCreation` flag when `status` holds; `false` leaves the mask
    /// as it is.
    pub fn set_allow_secure_process_creation(&mut self, status: bool) -> (r: &mut Self)
        ensures
            r@ == with_flag(old(self)@, ALLOW_SECURE_PROCESS_CREATION, status),
            *final(self) == *final(r),
    {
        self.flags = set_flag(self.flags, ALLOW_SECURE_PROCESS_CREATION, status);
        self
    }

    /// Turns on the flag at an arbitrary `position` when `status` holds, for
    /// flags that have no setter of their own.
    pub fn custom_set(&mut self, position: u32, status: bool) -> (r: &mut Self)
        requires
            position < FLAG_WIDTH,
        ensures
            r@ == with_flag(old(self)@, position, status),
            *final(self) == *final(r),
    {
        self.flags = set_flag(self.flags, position, status);
        self
    }
}

impl Default for ChildProcessPolicy {
    fn default() -> (r: Self)
        ensures
            r@ == 0,
    {
        Self::new()
    }
}

} // verus!
