//! Device discovery: bounded retry behavior, ready-device selection, and the
//! pure halves of per-device property resolution.

use uad_core::discovery::discovery_init;
use uad_core::discovery::discovery_step;
use uad_core::discovery::get_android_sdk;
use uad_core::discovery::get_device_brand;
use uad_core::discovery::get_device_model;
use uad_core::discovery::is_protected_user;
use uad_core::discovery::list_users_idx_prot;
use uad_core::discovery::phone_snapshot;
use uad_core::discovery::ready_serials;
use uad_core::discovery::DiscoveryAction;
use uad_core::discovery::DISCOVERY_RETRY_DELAY_MS;
use uad_core::model::User;

fn devs(entries: &[(&str, &str)]) -> Vec<(String, String)> {
    entries.iter().map(|(s, st)| (s.to_string(), st.to_string())).collect()
}

#[test]
fn only_ready_devices_are_selected() {
    let reported = devs(&[("s1", "device"), ("s2", "offline"), ("s3", "device"), ("s4", "unauthorized")]);
    assert_eq!(ready_serials(&reported), vec!["s1", "s3"]);
}

#[test]
fn no_ready_devices_retries_until_the_budget_is_spent() {
    // Development build: 3 attempts, fixed 500 ms spacing, then an empty
    // list as the failure signal.
    let mut state = discovery_init(true);
    let attempt: Result<Vec<(String, String)>, String> =
        Ok(devs(&[("s1", "offline"), ("s2", "unauthorized")]));
    let mut delays = 0u32;
    loop {
        match discovery_step(&mut state, &attempt) {
            DiscoveryAction::RetryAfterDelay(ms) => {
                assert_eq!(ms, DISCOVERY_RETRY_DELAY_MS);
                delays += 1;
            }
            DiscoveryAction::Stop(found) => {
                assert!(found.is_empty());
                break;
            }
        }
    }
    assert_eq!(delays, 2, "three attempts means two retries in between");
}

#[test]
fn failing_transport_also_exhausts_the_budget() {
    let mut state = discovery_init(false);
    let attempt: Result<Vec<(String, String)>, String> = Err("adb: cannot connect".to_string());
    let mut steps = 0u32;
    loop {
        steps += 1;
        match discovery_step(&mut state, &attempt) {
            DiscoveryAction::RetryAfterDelay(_) => {}
            DiscoveryAction::Stop(found) => {
                assert!(found.is_empty());
                break;
            }
        }
    }
    assert_eq!(steps, 10, "release builds try ten times");
}

#[test]
fn first_ready_attempt_stops_discovery() {
    let mut state = discovery_init(true);
    let bad: Result<Vec<(String, String)>, String> = Ok(devs(&[("s1", "offline")]));
    let good: Result<Vec<(String, String)>, String> =
        Ok(devs(&[("s1", "device"), ("s2", "offline")]));
    assert_eq!(
        discovery_step(&mut state, &bad),
        DiscoveryAction::RetryAfterDelay(DISCOVERY_RETRY_DELAY_MS)
    );
    assert_eq!(discovery_step(&mut state, &good), DiscoveryAction::Stop(vec!["s1".to_string()]));
}

#[test]
fn model_resolution_passes_output_through() {
    assert_eq!(get_device_model(&Ok("Pixel 7".to_string())), "Pixel 7");
}

#[test]
fn model_resolution_shortens_the_no_devices_error() {
    let err = Err("adb: no devices/emulators found; is the daemon running?".to_string());
    assert_eq!(get_device_model(&err), "no devices/emulators found");
    assert_eq!(get_device_model(&Err("some other error".to_string())), "some other error");
}

#[test]
fn brand_resolution_trims_and_defaults() {
    assert_eq!(get_device_brand(&Ok(" Google \n".to_string())), "Google");
    assert_eq!(get_device_brand(&Ok("samsung".to_string())), "samsung");
    assert_eq!(get_device_brand(&Err("fail".to_string())), "");
}

#[test]
fn sdk_resolution_parses_or_defaults_to_zero() {
    assert_eq!(get_android_sdk(&Ok("25".to_string())), 25);
    assert_eq!(get_android_sdk(&Ok("007".to_string())), 7);
    assert_eq!(get_android_sdk(&Ok("0".to_string())), 0);
    assert_eq!(get_android_sdk(&Ok(String::new())), 0);
    assert_eq!(get_android_sdk(&Ok("abc".to_string())), 0);
    assert_eq!(get_android_sdk(&Ok("25a".to_string())), 0);
    assert_eq!(get_android_sdk(&Ok("256".to_string())), 0);
    assert_eq!(get_android_sdk(&Ok("999999".to_string())), 0);
    assert_eq!(get_android_sdk(&Err("fail".to_string())), 0);
}

#[test]
fn protection_probe_is_conservative() {
    assert!(is_protected_user(&Err("cannot list for user".to_string())));
    assert!(!is_protected_user(&Ok(vec![])));
    assert!(!is_protected_user(&Ok(vec!["com.a".to_string()])));
}

#[test]
fn user_roster_carries_index_and_protection() {
    let ids: Result<Vec<u16>, String> = Ok(vec![0, 10, 95]);
    let roster = list_users_idx_prot(&ids, &vec![false, false, true]);
    assert_eq!(roster, vec![
        User { id: 0, index: 0, protected: false },
        User { id: 10, index: 1, protected: false },
        User { id: 95, index: 2, protected: true },
    ]);
}

#[test]
fn failed_user_listing_yields_empty_roster() {
    let ids: Result<Vec<u16>, String> = Err("no device".to_string());
    assert_eq!(list_users_idx_prot(&ids, &vec![]), vec![]);
}

#[test]
fn snapshot_joins_brand_and_model() {
    let phone = phone_snapshot(
        "Google",
        "Pixel 7",
        33,
        vec![User { id: 0, index: 0, protected: false }],
        "serial0",
    );
    assert_eq!(phone.model, "Google Pixel 7");
    assert_eq!(phone.android_sdk, 33);
    assert_eq!(phone.adb_id, "serial0");
    assert_eq!(phone.user_list.len(), 1);
}
