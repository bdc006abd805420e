//! Error translator: pure classification of raw transport error text into
//! human-readable diagnostics, and interpretation of a shell command's
//! transport result. The original text is always preserved verbatim inside
//! the produced message.

use vstd::prelude::*;
use vstd::string::StringExecFns;

use crate::model::AdbError;
use crate::strings::contains_seq;
use crate::strings::contains_sub;

verus! {

/// The diagnostic produced for one raw error output, given the action that
/// was attempted. Known substrings map to a prefixed explanation and a
/// remediation tip; anything else falls back to `"<action> -> <raw error>"`.
pub open spec fn spec_friendly_error(error_output: Seq<char>, action: Seq<char>) -> Seq<char> {
    if contains_seq(error_output, "DELETE_FAILED_USER_RESTRICTED"@) {
        "Cannot uninstall: This package is restricted by the device manufacturer (Samsung Knox or similar).\nError: "@
            + error_output
            + "\nTip: Try disabling the package instead, or check device settings for Knox/security restrictions."@
    } else if contains_seq(error_output, "NOT_INSTALLED_FOR_USER"@) {
        "Package is not installed for the current user.\nError: "@ + error_output
            + "\nTip: The package may be installed for a different user profile or work profile."@
    } else if contains_seq(error_output, "Shell cannot change component state for null"@) {
        "Invalid package: Empty package name detected.\nError: "@ + error_output
            + "\nTip: Please refresh the package list and try again."@
    } else if contains_seq(error_output, "Permission denied"@) || contains_seq(
        error_output,
        "INSTALL_FAILED_PERMISSION_MODEL_DOWNGRADE"@,
    ) {
        "Permission denied: Insufficient privileges to perform this action.\nError: "@
            + error_output
            + "\nTip: This may require root access or the package is protected by the system."@
    } else if contains_seq(error_output, "DELETE_FAILED_DEVICE_POLICY_MANAGER"@) {
        "Cannot modify: Package is managed by device policy (MDM/EMM).\nError: "@ + error_output
            + "\nTip: Contact your IT administrator if this is a work device."@
    } else {
        action + " -> "@ + error_output
    }
}

/// Convert common manufacturer-specific error output into a user-friendly
/// explanation, preserving the original text.
pub fn make_friendly_error_message(error_output: &str, action: &str) -> (r: String)
    ensures
        r@ == spec_friendly_error(error_output@, action@),
{
    if contains_sub(error_output, "DELETE_FAILED_USER_RESTRICTED") {
        let mut s = String::from_str(
            "Cannot uninstall: This package is restricted by the device manufacturer (Samsung Knox or similar).\nError: ",
        );
        s.append(error_output);
        s.append(
            "\nTip: Try disabling the package instead, or check device settings for Knox/security restrictions.",
        );
        s
    } else if contains_sub(error_output, "NOT_INSTALLED_FOR_USER") {
        let mut s = String::from_str("Package is not installed for the current user.\nError: ");
        s.append(error_output);
        s.append(
            "\nTip: The package may be installed for a different user profile or work profile.",
        );
        s
    } else if contains_sub(error_output, "Shell cannot change component state for null") {
        let mut s = String::from_str("Invalid package: Empty package name detected.\nError: ");
        s.append(error_output);
        s.append("\nTip: Please refresh the package list and try again.");
        s
    } else if contains_sub(error_output, "Permission denied") || contains_sub(
        error_output,
        "INSTALL_FAILED_PERMISSION_MODEL_DOWNGRADE",
    ) {
        let mut s = String::from_str(
            "Permission denied: Insufficient privileges to perform this action.\nError: ",
        );
        s.append(error_output);
        s.append(
            "\nTip: This may require root access or the package is protected by the system.",
        );
        s
    } else if contains_sub(error_output, "DELETE_FAILED_DEVICE_POLICY_MANAGER") {
        let mut s = String::from_str(
            "Cannot modify: Package is managed by device policy (MDM/EMM).\nError: ",
        );
        s.append(error_output);
        s.append("\nTip: Contact your IT administrator if this is a work device.");
        s
    } else {
        let mut s = String::from_str(action);
        s.append(" -> ");
        s.append(error_output);
        s
    }
}

/// A shell command's output counts as success only when it carries neither
/// error marker.
pub open spec fn spec_shell_success(output: Seq<char>) -> bool {
    !contains_seq(output, "Error"@) && !contains_seq(output, "Failure"@)
}

/// The diagnostic text carried by the error that interpreting a shell result
/// produces. A transport error about a package not being installed for a
/// user is passed through untouched; everything else is translated.
pub open spec fn spec_shell_error_text(
    action: Seq<char>,
    result: Result<String, String>,
) -> Seq<char> {
    match result {
        Result::Ok(o) => spec_friendly_error(o@, action),
        Result::Err(e) => if contains_seq(e@, "[not installed for"@) {
            e@
        } else {
            spec_friendly_error(e@, action)
        },
    }
}

/// Decide what a shell command's transport result means: pass clean output
/// through, and turn error markers in the output, or a transport error, into
/// a classified diagnostic.
pub fn interpret_shell_result(action: &str, result: Result<String, String>) -> (r: Result<
    String,
    AdbError,
>)
    ensures
        r is Ok <==> result is Ok && spec_shell_success(result->Ok_0@),
        r is Ok ==> r->Ok_0@ == result->Ok_0@,
        r is Err ==> (r->Err_0 matches AdbError::Generic(m) && m@ == spec_shell_error_text(
            action@,
            result,
        )),
{
    match result {
        Result::Ok(o) => {
            if contains_sub(o.as_str(), "Error") || contains_sub(o.as_str(), "Failure") {
                let friendly = make_friendly_error_message(o.as_str(), action);
                Result::Err(AdbError::Generic(friendly))
            } else {
                Result::Ok(o)
            }
        },
        Result::Err(err) => {
            if !contains_sub(err.as_str(), "[not installed for") {
                let friendly = make_friendly_error_message(err.as_str(), action);
                Result::Err(AdbError::Generic(friendly))
            } else {
                Result::Err(AdbError::Generic(err))
            }
        },
    }
}

} // verus!
