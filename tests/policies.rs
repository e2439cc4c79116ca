use win_mitigations::aslr::{self, AslrPolicy};
use win_mitigations::binary_signature::{self, BinarySignaturePolicy};
use win_mitigations::category::MitigationCategory;
use win_mitigations::child_process::{self, ChildProcessPolicy};
use win_mitigations::commit::{commit, commit_outcome, MitigationError};
use win_mitigations::dynamic_code::{self, DynamicCodePolicy};
use win_mitigations::extension_point::{self, ExtensionPointPolicy};
use win_mitigations::font_disable::{self, FontDisablePolicy};
use win_mitigations::flags::{set_flag, FLAG_WIDTH};
use win_mitigations::image_load::{self, ImageLoadPolicy};
use win_mitigations::strict_handle::{self, StrictHandlePolicy};

#[test]
fn aslr_named_flags_set_one_bit_each() {
    assert_eq!(AslrPolicy::new().set_enable_bottom_up_randomization(true).flags(), 0b0001);
    assert_eq!(AslrPolicy::new().set_enable_force_relocate_images(true).flags(), 0b0010);
    assert_eq!(AslrPolicy::new().set_enable_high_entropy(true).flags(), 0b0100);
    assert_eq!(AslrPolicy::new().set_disallow_stripped_images(true).flags(), 0b1000);
    assert_eq!(aslr::ENABLE_HIGH_ENTROPY, 2);
}

#[test]
fn binary_signature_named_flags_set_one_bit_each() {
    assert_eq!(BinarySignaturePolicy::new().set_microsoft_signed_only(true).flags(), 1);
    assert_eq!(BinarySignaturePolicy::new().set_store_signed_only(true).flags(), 2);
    assert_eq!(BinarySignaturePolicy::new().set_mitigation_opt_in(true).flags(), 4);
    assert_eq!(BinarySignaturePolicy::new().set_audit_microsoft_signed_only(true).flags(), 8);
    assert_eq!(BinarySignaturePolicy::new().set_audit_store_signed_only(true).flags(), 16);
    assert_eq!(binary_signature::AUDIT_STORE_SIGNED_ONLY, 4);
}

#[test]
fn child_process_named_flags_set_one_bit_each() {
    assert_eq!(ChildProcessPolicy::new().set_no_child_process_creation(true).flags(), 1);
    assert_eq!(ChildProcessPolicy::new().set_audit_no_child_process_creation(true).flags(), 2);
    assert_eq!(ChildProcessPolicy::new().set_allow_secure_process_creation(true).flags(), 4);
    assert_eq!(child_process::ALLOW_SECURE_PROCESS_CREATION, 2);
}

#[test]
fn dynamic_code_named_flags_set_one_bit_each() {
    assert_eq!(DynamicCodePolicy::new().set_prohibit_dynamic_code(true).flags(), 1);
    assert_eq!(DynamicCodePolicy::new().set_allow_thread_opt_out(true).flags(), 2);
    assert_eq!(DynamicCodePolicy::new().set_allow_remote_downgrade(true).flags(), 4);
    assert_eq!(DynamicCodePolicy::new().set_audit_prohibit_dynamic_code(true).flags(), 8);
    assert_eq!(dynamic_code::AUDIT_PROHIBIT_DYNAMIC_CODE, 3);
}

#[test]
fn extension_point_named_flag_sets_one_bit() {
    assert_eq!(ExtensionPointPolicy::new().set_disable_extension_points(true).flags(), 1);
    assert_eq!(extension_point::DISABLE_EXTENSION_POINTS, 0);
}

#[test]
fn font_disable_named_flags_set_one_bit_each() {
    assert_eq!(FontDisablePolicy::new().set_disable_non_system_fonts(true).flags(), 1);
    assert_eq!(FontDisablePolicy::new().set_audit_non_system_font_loading(true).flags(), 2);
    assert_eq!(font_disable::AUDIT_NON_SYSTEM_FONT_LOADING, 1);
}

#[test]
fn image_load_named_flags_set_one_bit_each() {
    assert_eq!(ImageLoadPolicy::new().set_no_remote_images(true).flags(), 1);
    assert_eq!(ImageLoadPolicy::new().set_no_low_mandatory_label_images(true).flags(), 2);
    assert_eq!(ImageLoadPolicy::new().set_prefer_system32_images(true).flags(), 4);
    assert_eq!(ImageLoadPolicy::new().set_audit_no_remote_images(true).flags(), 8);
    assert_eq!(ImageLoadPolicy::new().set_audit_no_low_mandatory_label_images(true).flags(), 16);
    assert_eq!(image_load::AUDIT_NO_LOW_MANDATORY_LABEL_IMAGES, 4);
}

#[test]
fn strict_handle_named_flags_set_one_bit_each() {
    assert_eq!(StrictHandlePolicy::new().set_raise_exception_on_invalid_handle_reference(true).flags(), 1);
    assert_eq!(StrictHandlePolicy::new().set_handle_exceptions_permanently_enabled(true).flags(), 2);
    assert_eq!(strict_handle::HANDLE_EXCEPTIONS_PERMANENTLY_ENABLED, 1);
}

#[test]
fn fresh_builders_commit_zero() {
    let mut seen = Vec::new();
    assert_eq!(AslrPolicy::new().build(|c, b| { seen.push((c, b)); 0 }), Ok(()));
    assert_eq!(BinarySignaturePolicy::new().build(|c, b| { seen.push((c, b)); 0 }), Ok(()));
    assert_eq!(ChildProcessPolicy::new().build(|c, b| { seen.push((c, b)); 0 }), Ok(()));
    assert_eq!(DynamicCodePolicy::new().build(|c, b| { seen.push((c, b)); 0 }), Ok(()));
    assert_eq!(ExtensionPointPolicy::new().build(|c, b| { seen.push((c, b)); 0 }), Ok(()));
    assert_eq!(FontDisablePolicy::new().build(|c, b| { seen.push((c, b)); 0 }), Ok(()));
    assert_eq!(ImageLoadPolicy::new().build(|c, b| { seen.push((c, b)); 0 }), Ok(()));
    assert_eq!(StrictHandlePolicy::new().build(|c, b| { seen.push((c, b)); 0 }), Ok(()));
    assert_eq!(
        seen,
        vec![
            (MitigationCategory::Aslr, 0),
            (MitigationCategory::BinarySignature, 0),
            (MitigationCategory::ChildProcess, 0),
            (MitigationCategory::DynamicCode, 0),
            (MitigationCategory::ExtensionPoint, 0),
            (MitigationCategory::FontDisable, 0),
            (MitigationCategory::ImageLoad, 0),
            (MitigationCategory::StrictHandleCheck, 0),
        ]
    );
}

#[test]
fn setting_a_flag_twice_is_idempotent() {
    let mut once = ImageLoadPolicy::new();
    once.set_prefer_system32_images(true);
    let mut twice = ImageLoadPolicy::new();
    twice.set_prefer_system32_images(true).set_prefer_system32_images(true);
    assert_eq!(once.flags(), twice.flags());
    assert_eq!(twice.flags(), 0b100);
    assert_eq!(set_flag(0b1010, 3, true), set_flag(set_flag(0b1010, 3, true), 3, true));
}

#[test]
fn false_on_a_clear_bit_changes_nothing() {
    let mut p = BinarySignaturePolicy::new();
    p.set_store_signed_only(false);
    assert_eq!(p.flags(), 0);
    p.set_microsoft_signed_only(true).set_mitigation_opt_in(false);
    assert_eq!(p.flags(), 0b001);
}

#[test]
fn false_does_not_clear_a_set_flag() {
    let mut p = DynamicCodePolicy::new();
    p.set_prohibit_dynamic_code(true).set_prohibit_dynamic_code(false);
    assert_eq!(p.flags(), 1);
    assert_eq!(set_flag(0b11, 0, false), 0b11);
}

#[test]
fn custom_set_matches_named_setter() {
    let mut named = AslrPolicy::new();
    named.set_disallow_stripped_images(true);
    let mut custom = AslrPolicy::new();
    custom.custom_set(aslr::DISALLOW_STRIPPED_IMAGES, true);
    assert_eq!(named.flags(), custom.flags());

    let mut named = StrictHandlePolicy::new();
    named.set_handle_exceptions_permanently_enabled(true);
    let mut custom = StrictHandlePolicy::new();
    custom.custom_set(1, true);
    assert_eq!(named.flags(), custom.flags());
}

#[test]
fn custom_set_reaches_the_top_bit() {
    let mut p = FontDisablePolicy::new();
    p.custom_set(FLAG_WIDTH - 1, true).custom_set(7, false);
    assert_eq!(p.flags(), 0x8000_0000);
    let mut q = ExtensionPointPolicy::new();
    q.custom_set(5, true).set_disable_extension_points(true);
    assert_eq!(q.flags(), 0b10_0001);
}

#[test]
fn aslr_high_entropy_and_force_relocate() {
    let mut p = AslrPolicy::new();
    p.set_enable_high_entropy(true).set_enable_force_relocate_images(true);
    assert_eq!(p.flags(), 0b0110);
    let mut seen = None;
    let r = p.build(|c, b| {
        seen = Some((c, b));
        0
    });
    assert_eq!(r, Ok(()));
    assert_eq!(seen, Some((MitigationCategory::Aslr, 0b0110)));
}

#[test]
fn rejected_commit_reports_status_and_leaves_mask() {
    let mut p = ChildProcessPolicy::new();
    p.set_no_child_process_creation(true);
    let kept = p;
    assert_eq!(p.build(|_, _| 5), Err(MitigationError::OsRejected(5)));
    assert_eq!(kept.flags(), 1);

    let denied: i32 = 0x8007_0005_u32 as i32;
    assert_eq!(AslrPolicy::new().build(|_, _| denied), Err(MitigationError::OsRejected(denied)));
    assert_eq!(BinarySignaturePolicy::new().build(|_, _| -1), Err(MitigationError::OsRejected(-1)));
    assert_eq!(DynamicCodePolicy::new().build(|_, _| 87), Err(MitigationError::OsRejected(87)));
    assert_eq!(ExtensionPointPolicy::new().build(|_, _| 2), Err(MitigationError::OsRejected(2)));
    assert_eq!(FontDisablePolicy::new().build(|_, _| 3), Err(MitigationError::OsRejected(3)));
    assert_eq!(ImageLoadPolicy::new().build(|_, _| i32::MIN), Err(MitigationError::OsRejected(i32::MIN)));
    assert_eq!(StrictHandlePolicy::new().build(|_, _| i32::MAX), Err(MitigationError::OsRejected(i32::MAX)));
}

#[test]
fn two_categories_commit_independently_in_either_order() {
    let mut dynamic = DynamicCodePolicy::new();
    dynamic.set_prohibit_dynamic_code(true).set_allow_thread_opt_out(true);
    let mut child = ChildProcessPolicy::new();
    child.set_no_child_process_creation(true);

    let mut seen = Vec::new();
    assert_eq!(dynamic.build(|c, b| { seen.push((c, b)); 0 }), Ok(()));
    assert_eq!(child.build(|c, b| { seen.push((c, b)); 0 }), Ok(()));
    assert_eq!(child.build(|c, b| { seen.push((c, b)); 0 }), Ok(()));
    assert_eq!(dynamic.build(|c, b| { seen.push((c, b)); 0 }), Ok(()));
    assert_eq!(
        seen,
        vec![
            (MitigationCategory::DynamicCode, 0b11),
            (MitigationCategory::ChildProcess, 0b1),
            (MitigationCategory::ChildProcess, 0b1),
            (MitigationCategory::DynamicCode, 0b11),
        ]
    );
    assert_eq!(dynamic.flags(), 0b11);
    assert_eq!(child.flags(), 0b1);
}

#[test]
fn commit_outcome_maps_status() {
    assert_eq!(commit_outcome(0), Ok(()));
    assert_eq!(commit_outcome(1), Err(MitigationError::OsRejected(1)));
    assert_eq!(commit_outcome(-87), Err(MitigationError::OsRejected(-87)));
}

#[test]
fn commit_hands_over_category_and_mask() {
    let mut seen = None;
    let r = commit(MitigationCategory::FontDisable, 0b10, |c, b| {
        seen = Some((c, b));
        9
    });
    assert_eq!(r, Err(MitigationError::OsRejected(9)));
    assert_eq!(seen, Some((MitigationCategory::FontDisable, 0b10)));
}

#[test]
fn default_builders_are_empty() {
    assert_eq!(AslrPolicy::default().flags(), 0);
    assert_eq!(BinarySignaturePolicy::default().flags(), 0);
    assert_eq!(ChildProcessPolicy::default().flags(), 0);
    assert_eq!(DynamicCodePolicy::default().flags(), 0);
    assert_eq!(ExtensionPointPolicy::default().flags(), 0);
    assert_eq!(FontDisablePolicy::default().flags(), 0);
    assert_eq!(ImageLoadPolicy::default().flags(), 0);
    assert_eq!(StrictHandlePolicy::default().flags(), 0);
}

#[test]
fn set_flag_on_its_own() {
    assert_eq!(set_flag(0, 0, true), 1);
    assert_eq!(set_flag(0b100, 4, true), 0b10100);
    assert_eq!(set_flag(0b100, 4, false), 0b100);
}
