//! Image load policy: where loaded images may come from.
use vstd::prelude::*;

use crate::category::MitigationCategory;
use crate::commit::{commit, outcome_of, MitigationError};
use crate::flags::{set_flag, with_flag, FLAG_WIDTH};

verus! {

/// Position of the `NoRemoteImages` flag.
pub const NO_REMOTE_IMAGES: u32 = 0;

/// Position of the `NoLowMandatoryLabelImages` flag.
pub const NO_LOW_MANDATORY_LABEL_IMAGES: u32 = 1;

/// Position of the `PreferSystem32Images` flag.
pub const PREFER_SYSTEM32_IMAGES: u32 = 2;

/// Position of the `AuditNoRemoteImages` flag.
pub const AUDIT_NO_REMOTE_IMAGES: u32 = 3;

/// Position of the `AuditNoLowMandatoryLabelImages` flag.
pub const AUDIT_NO_LOW_MANDATORY_LABEL_IMAGES: u32 = 4;

/// Builder for the image load policy.
#[derive(Clone, Copy)]
pub struct ImageLoadPolicy {
    flags: u32,
}

impl View for ImageLoadPolicy {
    type V = u32;

    /// The accumulated flag mask.
    closed spec fn view(&self) -> u32 {
        self.flags
    }
}

impl ImageLoadPolicy {
    /// A builder with every flag off.
    pub fn new() -> (r: Self)
        ensures
            r@ == 0,
    {
        ImageLoadPolicy { flags: 0 }
    }

    /// The flag mask accumulated so far.
    pub fn flags(&self) -> (r: u32)
        ensures
            r == self@,
    {
        self.flags
    }

    /// Commits the mask under the image load category through `entry_point`,
    /// which applies it to the process and reports a status (zero on success).
    pub fn build<F>(self, entry_point: F) -> (r: Result<(), MitigationError>) where
        F: FnOnce(MitigationCategory, u32) -> i32,
        requires
            entry_point.requires((MitigationCategory::ImageLoad, self@)),
        ensures
            exists|status: i32|
                #![trigger entry_point.ensures((MitigationCategory::ImageLoad, self@), status)]
                entry_point.ensures((MitigationCategory::ImageLoad, self@), status) && r == outcome_of(
                    status,
                ),
    {
        commit(MitigationCategory::ImageLoad, self.flags, entry_point)
    }

    /// Turns on the `NoRemoteImages` flag when `status` holds; `false` leaves the mask
    /// as it is.
    pub fn set_no_remote_images(&mut self, status: bool) -> (r: &mut Self)
        ensures
            r@ == with_flag(old(self)@, NO_REMOTE_IMAGES, status),
            *final(self) == *final(r),
    {
        self.flags = set_flag(self.flags, NO_REMOTE_IMAGES, status);
        self
    }

    /// Turns on the `NoLowMandatoryLabelImages` flag when `status` holds; `false` leaves the mask
    /// as it is.
    pub fn set_no_low_mandatory_label_images(&mut self, status: bool) -> (r: &mut Self)
        ensures
            r@ == with_flag(old(self)@, NO_LOW_MANDATORY_LABEL_IMAGES, status),
            *final(self) == *final(r),
    {
        self.flags = set_flag(self.flags, NO_LOW_MANDATORY_LABEL_IMAGES, status);
        self
    }

    /// Turns on the `PreferSystem32Images` flag when `status` holds; `false` leaves the mask
    /// as it is.
    pub fn set_prefer_system32_images(&mut self, status: bool) -> (r: &mut Self)
        ensures
            r@ == with_flag(old(self)@, PREFER_SYSTEM32_IMAGES, status),
            *final(self) == *final(r),
    {
        self.flags = set_flag(self.flags, PREFER_SYSTEM32_IMAGES, status);
        self
    }

    /// Turns on the `AuditNoRemoteImages` flag when `status` holds; `false` leaves the mask
    /// as it is.
    pub fn set_audit_no_remote_images(&mut self, status: bool) -> (r: &mut Self)
        ensures
            r@ == with_flag(old(self)@, AUDIT_NO_REMOTE_IMAGES, status),
            *final(self) == *final(r),
    {
        self.flags = set_flag(self.flags, AUDIT_NO_REMOTE_IMAGES, status);
        self
    }

    /// Turns on the `AuditNoLowMandatoryLabelImages` flag when `status` holds; `false` leaves the mask
    /// as it is.
    pub fn set_audit_no_low_mandatory_label_images(&mut self, status: bool) -> (r: &mut Self)
        ensures
            r@ == with_flag(old(self)@, AUDIT_NO_LOW_MANDATORY_LABEL_IMAGES, status),
            *final(self) == *final(r),
    {
        self.flags = set_flag(self.flags, AUDIT_NO_LOW_MANDATORY_LABEL_IMAGES, status);
        self
    }

    /// Turns on the flag at an arbitrary `position` when `status` holds, for
    /// flags that have no setter of their own.
    pub fn custom_set(&mut self, position: u32, status: bool) -> (r: &mut Self)
        requires
            position < FLAG_WIDTH,
        ensures
            r@ == with_flag(old(self)@, position, status),
            *final(self) == *final(r),
    {
        self.flags = set_flag(self.flags, position, status);
        self
    }
}

impl Default for ImageLoadPolicy {
    fn default() -> (r: Self)
        ensures
            r@ == 0,
    {
        Self::new()
    }
}

} // verus!
