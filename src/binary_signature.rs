//! Binary signature policy: which signers a loaded image must carry.
use vstd::prelude::*;

use crate::category::MitigationCategory;
use crate::commit::{commit, outcome_of, MitigationError};
use crate::flags::{set_flag, with_flag, FLAG_WIDTH};

verus! {

/// Position of the `MicrosoftSignedOnly` flag.
pub const MICROSOFT_SIGNED_ONLY: u32 = 0;

/// Position of the `StoreSignedOnly` flag.
pub const STORE_SIGNED_ONLY: u32 = 1;

/// Position of the `MitigationOptIn` flag.
pub const MITIGATION_OPT_IN: u32 = 2;

/// Position of the `AuditMicrosoftSignedOnly` flag.
pub const AUDIT_MICROSOFT_SIGNED_ONLY: u32 = 3;

/// Position of the `AuditStoreSignedOnly` flag.
pub const AUDIT_STORE_SIGNED_ONLY: u32 = 4;

/// Builder for the binary signature policy.
#[derive(Clone, Copy)]
pub struct BinarySignaturePolicy {
    flags: u32,
}

impl View for BinarySignaturePolicy {
    type V = u32;

    /// The accumulated flag mask.
    closed spec fn view(&self) -> u32 {
        self.flags
    }
}

impl BinarySignaturePolicy {
    /// A builder with every flag off.
    pub fn new() -> (r: Self)
        ensures
            r@ == 0,
    {
        BinarySignaturePolicy { flags: 0 }
    }

    /// The flag mask accumulated so far.
    pub fn flags(&self) -> (r: u32)
        ensures
            r == self@,
    {
        self.flags
    }

    /// Commits the mask under the binary signature category through `entry_point`,
    /// which applies it to the process and reports a status (zero on success).
    pub fn build<F>(self, entry_point: F) -> (r: Result<(), MitigationError>) where
        F: FnOnce(MitigationCategory, u32) -> i32,
        requires
            entry_point.requires((MitigationCategory::BinarySignature, self@)),
        ensures
            exists|status: i32|
                #![trigger entry_point.ensures((MitigationCategory::BinarySignature, self@), status)]
                entry_point.ensures((MitigationCategory::BinarySignature, self@), status) && r == outcome_of(
                    status,
                ),
    {
        commit(MitigationCategory::BinarySignature, self.flags, entry_point)
    }

    /// Turns on the `MicrosoftSignedOnly` flag when `status` holds; `false` leaves the mask
    /// as it is.
    pub fn set_microsoft_signed_only(&mut self, status: bool) -> (r: &mut Self)
        ensures
            r@ == with_flag(old(self)@, MICROSOFT_SIGNED_ONLY, status),
            *final(self) == *final(r),
    {
        self.flags = set_flag(self.flags, MICROSOFT_SIGNED_ONLY, status);
        self
    }

    /// Turns on the `StoreSignedOnly` flag when `status` holds; `false` leaves the mask
    /// as it is.
    pub fn set_store_signed_only(&mut self, status: bool) -> (r: &mut Self)
        ensures
            r@ == with_flag(old(self)@, STORE_SIGNED_ONLY, status),
            *final(self) == *final(r),
    {
        self.flags = set_flag(self.flags, STORE_SIGNED_ONLY, status);
        self
    }

    /// Turns on the `MitigationOptIn` flag when `status` holds; `false` leaves the mask
    /// as it is.
    pub fn set_mitigation_opt_in(&mut self, status: bool) -> (r: &mut Self)
        ensures
            r@ == with_flag(old(self)@, MITIGATION_OPT_IN, status),
            *final(self) == *final(r),
    {
        self.flags = set_flag(self.flags, MITIGATION_OPT_IN, status);
        self
    }

    /// Turns on the `AuditMicrosoftSignedOnly` flag when `status` holds; `false` leaves the mask
    /// as it is.
    pub fn set_audit_microsoft_signed_only(&mut self, status: bool) -> (r: &mut Self)
        ensures
            r@ == with_flag(old(self)@, AUDIT_MICROSOFT_SIGNED_ONLY, status),
            *final(self) == *final(r),
    {
        self.flags = set_flag(self.flags, AUDIT_MICROSOFT_SIGNED_ONLY, status);
        self
    }

    /// Turns on the `AuditStoreSignedOnly` flag when `status` holds; `false` leaves the mask
    /// as it is.
    pub fn set_audit_store_signed_only(&mut self, status: bool) -> (r: &mut Self)
        ensures
            r@ == with_flag(old(self)@, AUDIT_STORE_SIGNED_ONLY, status),
            *final(self) == *final(r),
    {
        self.flags = set_flag(self.flags, AUDIT_STORE_SIGNED_ONLY, status);
        self
    }

    /// Turns on the flag at an arbitrary `position` when `status` holds, for
    /// flags that have no setter of their own.
    pub fn custom_set(&mut self, position: u32, status: bool) -> (r: &mut Self)
        requires
            position < FLAG_WIDTH,
        ensures
            r@ == with_flag(old(self)@, position, status),
            *final(self) == *final(r),
    {
        self.flags = set_flag(self.flags, position, status);
        self
    }
}

impl Default for BinarySignaturePolicy {
    fn default() -> (r: Self)
        ensures
            r@ == 0,
    {
        Self::new()
    }
}

} // verus!
