//! Error translator and shell-result interpretation, plus the string
//! utilities they are built on.

use uad_core::errors::interpret_shell_result;
use uad_core::errors::make_friendly_error_message;
use uad_core::model::AdbError;
use uad_core::model::Phone;
use uad_core::strings::contains_sub;
use uad_core::strings::parse_u8_digits;
use uad_core::strings::str_eq;
use uad_core::strings::trim_str;
use uad_core::strings::u16_to_dec;

fn generic(r: Result<String, AdbError>) -> String {
    match r {
        Err(AdbError::Generic(m)) => m,
        Ok(o) => panic!("expected an error, got Ok({o:?})"),
    }
}

#[test]
fn knox_restriction_is_explained_and_preserved() {
    let raw = "Failure [DELETE_FAILED_USER_RESTRICTED]";
    let msg = make_friendly_error_message(raw, "pm uninstall --user 0 com.x");
    assert_eq!(
        msg,
        "Cannot uninstall: This package is restricted by the device manufacturer (Samsung Knox or similar).\n\
         Error: Failure [DELETE_FAILED_USER_RESTRICTED]\n\
         Tip: Try disabling the package instead, or check device settings for Knox/security restrictions."
    );
    assert!(msg.contains("Samsung Knox"));
    assert!(msg.contains(raw));
}

#[test]
fn user_scope_mismatch_is_explained() {
    let raw = "Failure [NOT_INSTALLED_FOR_USER 10]";
    let msg = make_friendly_error_message(raw, "pm enable com.x");
    assert!(msg.starts_with("Package is not installed for the current user.\nError: "));
    assert!(msg.contains(raw));
    assert!(msg.ends_with(
        "\nTip: The package may be installed for a different user profile or work profile."
    ));
}

#[test]
fn empty_package_name_is_explained() {
    let raw = "Shell cannot change component state for null to 1";
    let msg = make_friendly_error_message(raw, "pm enable ");
    assert!(msg.starts_with("Invalid package: Empty package name detected."));
    assert!(msg.contains(raw));
}

#[test]
fn permission_denials_are_explained() {
    let msg = make_friendly_error_message("Permission denied", "pm uninstall com.x");
    assert!(msg.starts_with("Permission denied: Insufficient privileges"));
    let msg2 = make_friendly_error_message(
        "Failure [INSTALL_FAILED_PERMISSION_MODEL_DOWNGRADE]",
        "cmd package install-existing com.x",
    );
    assert!(msg2.starts_with("Permission denied: Insufficient privileges"));
}

#[test]
fn device_policy_management_is_explained() {
    let raw = "Failure [DELETE_FAILED_DEVICE_POLICY_MANAGER]";
    let msg = make_friendly_error_message(raw, "pm uninstall com.x");
    assert!(msg.starts_with("Cannot modify: Package is managed by device policy (MDM/EMM)."));
    assert!(msg.contains(raw));
}

#[test]
fn unknown_errors_fall_back_to_action_and_raw_text() {
    let msg = make_friendly_error_message("something odd", "pm enable com.x");
    assert_eq!(msg, "pm enable com.x -> something odd");
}

#[test]
fn clean_output_passes_through() {
    let r = interpret_shell_result("pm enable com.x", Ok("Success".to_string()));
    assert_eq!(r.unwrap(), "Success");
}

#[test]
fn error_marker_in_output_is_classified() {
    let r = interpret_shell_result("pm uninstall com.x", Ok("Failure [whatever]".to_string()));
    assert_eq!(generic(r), "pm uninstall com.x -> Failure [whatever]");
    let r2 = interpret_shell_result("pm enable com.x", Ok("Error: no such package".to_string()));
    assert_eq!(generic(r2), "pm enable com.x -> Error: no such package");
}

#[test]
fn not_installed_for_user_errors_pass_through_verbatim() {
    let raw = "java.lang.IllegalArgumentException: Unknown package: com.x [not installed for 10]";
    let r = interpret_shell_result("pm enable com.x", Err(raw.to_string()));
    assert_eq!(generic(r), raw);
}

#[test]
fn other_transport_errors_are_classified() {
    let r = interpret_shell_result(
        "pm uninstall --user 0 com.x",
        Err("Failure [DELETE_FAILED_USER_RESTRICTED]".to_string()),
    );
    let msg = generic(r);
    assert!(msg.starts_with("Cannot uninstall: This package is restricted"));
    assert!(msg.contains("DELETE_FAILED_USER_RESTRICTED"));
}

#[test]
fn substring_search_matches_the_standard_library() {
    for (h, n) in [
        ("hello world", "lo wo"),
        ("hello", ""),
        ("", ""),
        ("", "a"),
        ("abc", "abcd"),
        ("aaab", "aab"),
        ("DELETE_FAILED", "FAILED"),
    ] {
        assert_eq!(contains_sub(h, n), h.contains(n), "haystack {h:?}, needle {n:?}");
    }
}

#[test]
fn string_equality_matches_the_standard_library() {
    assert!(str_eq("abc", "abc"));
    assert!(!str_eq("abc", "abd"));
    assert!(!str_eq("abc", "ab"));
    assert!(str_eq("", ""));
}

#[test]
fn decimal_rendering_matches_the_standard_library() {
    for n in [0u16, 5, 9, 10, 42, 500, 65535] {
        assert_eq!(u16_to_dec(n), n.to_string());
    }
}

#[test]
fn parsing_matches_the_lenient_policy() {
    assert_eq!(parse_u8_digits("34"), 34);
    assert_eq!(parse_u8_digits("255"), 255);
    assert_eq!(parse_u8_digits("256"), 0);
    assert_eq!(parse_u8_digits("-1"), 0);
    assert_eq!(parse_u8_digits(" 3"), 0);
}

#[test]
fn trimming_matches_the_standard_library() {
    for s in ["  padded  ", "none", "", "   ", "\t tab \r\n", "\u{2028}x\u{3000}"] {
        assert_eq!(trim_str(s), s.trim(), "input {s:?}");
    }
}

#[test]
fn default_phone_is_a_placeholder() {
    let phone = Phone::default();
    assert_eq!(phone.model, "fetching devices...");
    assert_eq!(phone.android_sdk, 0);
    assert!(phone.user_list.is_empty());
    assert_eq!(phone.adb_id, "");
}
