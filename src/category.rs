//! The mitigation categories a policy mask can be committed under.
use vstd::prelude::*;

use crate::flags::FLAG_WIDTH;

use crate::aslr::{
    ENABLE_BOTTOM_UP_RANDOMIZATION,
    ENABLE_FORCE_RELOCATE_IMAGES,
    ENABLE_HIGH_ENTROPY,
    DISALLOW_STRIPPED_IMAGES,
};
use crate::binary_signature::{
    MICROSOFT_SIGNED_ONLY,
    STORE_SIGNED_ONLY,
    MITIGATION_OPT_IN,
    AUDIT_MICROSOFT_SIGNED_ONLY,
    AUDIT_STORE_SIGNED_ONLY,
};
use crate::child_process::{
    NO_CHILD_PROCESS_CREATION,
    AUDIT_NO_CHILD_PROCESS_CREATION,
    ALLOW_SECURE_PROCESS_CREATION,
};
use crate::dynamic_code::{
    PROHIBIT_DYNAMIC_CODE,
    ALLOW_THREAD_OPT_OUT,
    ALLOW_REMOTE_DOWNGRADE,
    AUDIT_PROHIBIT_DYNAMIC_CODE,
};
use crate::extension_point::DISABLE_EXTENSION_POINTS;
use crate::font_disable::{DISABLE_NON_SYSTEM_FONTS, AUDIT_NON_SYSTEM_FONT_LOADING};
use crate::image_load::{
    NO_REMOTE_IMAGES,
    NO_LOW_MANDATORY_LABEL_IMAGES,
    PREFER_SYSTEM32_IMAGES,
    AUDIT_NO_REMOTE_IMAGES,
    AUDIT_NO_LOW_MANDATORY_LABEL_IMAGES,
};
use crate::strict_handle::{
    RAISE_EXCEPTION_ON_INVALID_HANDLE_REFERENCE,
    HANDLE_EXCEPTIONS_PERMANENTLY_ENABLED,
};

verus! {

/// One class of process mitigation policy, each with its own flag layout.
#[derive(Clone, Copy, Debug, PartialEq, Eq, Structural)]
pub enum MitigationCategory {
    /// Address-space layout randomization.
    Aslr,
    /// Code-signing enforcement on loaded images.
    BinarySignature,
    /// Restriction of child-process creation.
    ChildProcess,
    /// Prohibition of dynamically generated code.
    DynamicCode,
    /// Disabling of legacy extension points.
    ExtensionPoint,
    /// Restriction of non-system font loading.
    FontDisable,
    /// Restriction of where images may be loaded from.
    ImageLoad,
    /// Strict checking of handle references.
    StrictHandleCheck,
}

/// The positions of a category's named flags, in the order its builder
/// declares their setters.
pub open spec fn named_positions(category: MitigationCategory) -> Seq<u32> {
    match category {
        MitigationCategory::Aslr => seq![
            ENABLE_BOTTOM_UP_RANDOMIZATION,
            ENABLE_FORCE_RELOCATE_IMAGES,
            ENABLE_HIGH_ENTROPY,
            DISALLOW_STRIPPED_IMAGES,
        ],
        MitigationCategory::BinarySignature => seq![
            MICROSOFT_SIGNED_ONLY,
            STORE_SIGNED_ONLY,
            MITIGATION_OPT_IN,
            AUDIT_MICROSOFT_SIGNED_ONLY,
            AUDIT_STORE_SIGNED_ONLY,
        ],
        MitigationCategory::ChildProcess => seq![
            NO_CHILD_PROCESS_CREATION,
            AUDIT_NO_CHILD_PROCESS_CREATION,
            ALLOW_SECURE_PROCESS_CREATION,
        ],
        MitigationCategory::DynamicCode => seq![
            PROHIBIT_DYNAMIC_CODE,
            ALLOW_THREAD_OPT_OUT,
            ALLOW_REMOTE_DOWNGRADE,
            AUDIT_PROHIBIT_DYNAMIC_CODE,
        ],
        MitigationCategory::ExtensionPoint => seq![DISABLE_EXTENSION_POINTS],
        MitigationCategory::FontDisable => seq![
            DISABLE_NON_SYSTEM_FONTS,
            AUDIT_NON_SYSTEM_FONT_LOADING,
        ],
        MitigationCategory::ImageLoad => seq![
            NO_REMOTE_IMAGES,
            NO_LOW_MANDATORY_LABEL_IMAGES,
            PREFER_SYSTEM32_IMAGES,
            AUDIT_NO_REMOTE_IMAGES,
            AUDIT_NO_LOW_MANDATORY_LABEL_IMAGES,
        ],
        MitigationCategory::StrictHandleCheck => seq![
            RAISE_EXCEPTION_ON_INVALID_HANDLE_REFERENCE,
            HANDLE_EXCEPTIONS_PERMANENTLY_ENABLED,
        ],
    }
}

/// Every named position of a category lies inside the mask, and no two named
/// flags of one category share a position.
pub proof fn lemma_named_positions_valid(category: MitigationCategory)
    ensures
        forall|k: int|
            0 <= k < named_positions(category).len() ==> #[trigger] named_positions(category)[k]
                < FLAG_WIDTH,
        forall|k: int, l: int|
            0 <= k < named_positions(category).len() && 0 <= l < named_positions(category).len()
                && k != l ==> #[trigger] named_positions(category)[k]
                != #[trigger] named_positions(category)[l],
{
}

} // verus!
