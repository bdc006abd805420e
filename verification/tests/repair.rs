//! Fallback / repair engine: the corrective-action table, both phases'
//! messages, and the terminal failures.

use uad_core::fallback::attempt_fallback;
use uad_core::fallback::fallback_phase_one_outcome;
use uad_core::fallback::fallback_phase_two_outcome;
use uad_core::fallback::FallbackKind;
use uad_core::fallback::FallbackStep;
use uad_core::model::CorePackage;
use uad_core::model::PackageState;
use uad_core::model::Phone;
use uad_core::model::Removal;
use uad_core::model::User;

fn phone(sdk: u8) -> Phone {
    Phone {
        model: "acme test".to_string(),
        android_sdk: sdk,
        user_list: vec![User { id: 0, index: 0, protected: false }],
        adb_id: "serial0".to_string(),
    }
}

fn pkg() -> CorePackage {
    CorePackage {
        name: "com.example.app".to_string(),
        state: PackageState::Enabled,
        description: "bloat".to_string(),
        removal: Removal::Advanced,
    }
}

fn user() -> User {
    User { id: 0, index: 0, protected: false }
}

#[test]
fn uninstall_that_left_package_enabled_plans_a_disable() {
    let plan = attempt_fallback(
        &pkg(),
        PackageState::Uninstalled,
        PackageState::Enabled,
        user(),
        &phone(25),
    )
    .unwrap();
    assert_eq!(plan.kind, FallbackKind::Disable);
    assert_eq!(plan.first_command, "pm disable-user --user 0 com.example.app");
    assert_eq!(plan.second_command, None);
}

#[test]
fn disable_fallback_unavailable_below_api_23() {
    let err = attempt_fallback(
        &pkg(),
        PackageState::Uninstalled,
        PackageState::Enabled,
        user(),
        &phone(22),
    )
    .unwrap_err();
    assert_eq!(err, "No disable command available for this Android version");
}

#[test]
fn disable_that_left_package_enabled_plans_an_uninstall() {
    let plan = attempt_fallback(
        &pkg(),
        PackageState::Disabled,
        PackageState::Enabled,
        user(),
        &phone(21),
    )
    .unwrap();
    assert_eq!(plan.kind, FallbackKind::Uninstall);
    assert_eq!(plan.first_command, "pm hide --user 0 com.example.app");
    assert_eq!(plan.second_command, None);
}

#[test]
fn enable_that_left_package_disabled_plans_uninstall_then_restore() {
    let plan = attempt_fallback(
        &pkg(),
        PackageState::Enabled,
        PackageState::Disabled,
        user(),
        &phone(25),
    )
    .unwrap();
    assert_eq!(plan.kind, FallbackKind::Reinstall);
    assert_eq!(plan.first_command, "pm uninstall --user 0 com.example.app");
    assert_eq!(
        plan.second_command.as_deref(),
        Some("cmd package install-existing --user 0 com.example.app")
    );
}

#[test]
fn reinstall_without_restore_command_reports_partial_success() {
    // Below SDK 19 the restore transition offers no commands: the second
    // phase yields zero commands and the engine settles for the uninstall.
    let plan = attempt_fallback(
        &pkg(),
        PackageState::Enabled,
        PackageState::Disabled,
        user(),
        &phone(18),
    )
    .unwrap();
    assert_eq!(plan.kind, FallbackKind::Reinstall);
    assert_eq!(plan.first_command, "pm block com.example.app");
    assert_eq!(plan.second_command, None);
    let step = fallback_phase_one_outcome(&plan, &Ok("ok".to_string()));
    assert_eq!(
        step,
        FallbackStep::Done(Ok("uninstalled package but couldn't reinstall".to_string()))
    );
}

#[test]
fn no_fallback_for_other_pairs() {
    let err = attempt_fallback(
        &pkg(),
        PackageState::Enabled,
        PackageState::Uninstalled,
        user(),
        &phone(25),
    )
    .unwrap_err();
    assert_eq!(
        err,
        "No fallback available for wanted state Enabled and actual state Uninstalled"
    );
}

#[test]
fn disable_phase_messages() {
    let plan = attempt_fallback(
        &pkg(),
        PackageState::Uninstalled,
        PackageState::Enabled,
        user(),
        &phone(25),
    )
    .unwrap();
    assert_eq!(
        fallback_phase_one_outcome(&plan, &Ok(String::new())),
        FallbackStep::Done(Ok("disabled package instead of uninstalling".to_string()))
    );
    assert_eq!(
        fallback_phase_one_outcome(&plan, &Err("device offline".to_string())),
        FallbackStep::Done(Err("Failed to disable package: device offline".to_string()))
    );
}

#[test]
fn uninstall_phase_messages() {
    let plan = attempt_fallback(
        &pkg(),
        PackageState::Disabled,
        PackageState::Enabled,
        user(),
        &phone(25),
    )
    .unwrap();
    assert_eq!(
        fallback_phase_one_outcome(&plan, &Ok(String::new())),
        FallbackStep::Done(Ok("uninstalled package instead of disabling".to_string()))
    );
    assert_eq!(
        fallback_phase_one_outcome(&plan, &Err("timed out".to_string())),
        FallbackStep::Done(Err("Failed to uninstall package: timed out".to_string()))
    );
}

#[test]
fn reinstall_runs_both_phases() {
    let plan = attempt_fallback(
        &pkg(),
        PackageState::Enabled,
        PackageState::Disabled,
        user(),
        &phone(25),
    )
    .unwrap();
    let step = fallback_phase_one_outcome(&plan, &Ok(String::new()));
    assert_eq!(
        step,
        FallbackStep::RunSecond("cmd package install-existing --user 0 com.example.app".to_string())
    );
    assert_eq!(
        fallback_phase_two_outcome(&Ok(String::new())),
        Ok("uninstalled and reinstalled package to enable it".to_string())
    );
    assert_eq!(
        fallback_phase_two_outcome(&Err("no network".to_string())),
        Err("Failed to reinstall package: no network".to_string())
    );
}

#[test]
fn reinstall_first_phase_failure_names_it() {
    let plan = attempt_fallback(
        &pkg(),
        PackageState::Enabled,
        PackageState::Disabled,
        user(),
        &phone(25),
    )
    .unwrap();
    assert_eq!(
        fallback_phase_one_outcome(&plan, &Err("busy".to_string())),
        FallbackStep::Done(Err("Failed to uninstall package for reinstall: busy".to_string()))
    );
}
