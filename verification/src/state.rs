//! State verifier: classify a package's current lifecycle state on a device
//! from the two per-user listings (enabled-only and disabled-only) that the
//! caller queried over the transport.
//!
//! A failed listing query is deliberately treated as absence, never as an
//! error: verification degrades to `Uninstalled` rather than failing
//! outward. This is a documented conservative policy and a known source of
//! false negatives.

use vstd::prelude::*;

use crate::model::PackageState;
use crate::strings::str_eq;

verus! {

/// The listing query succeeded and the package name appears in it.
pub open spec fn spec_listing_contains(
    listing: &Result<Vec<String>, String>,
    name: Seq<char>,
) -> bool {
    listing is Ok && listing->Ok_0.deep_view().contains(name)
}

/// The state the verifier assigns: present in the enabled listing means
/// `Enabled`; otherwise present in the disabled listing means `Disabled`;
/// otherwise `Uninstalled`. A failed query counts as absence.
pub open spec fn spec_observed_state(
    name: Seq<char>,
    enabled: &Result<Vec<String>, String>,
    disabled: &Result<Vec<String>, String>,
) -> PackageState {
    if spec_listing_contains(enabled, name) {
        PackageState::Enabled
    } else if spec_listing_contains(disabled, name) {
        PackageState::Disabled
    } else {
        PackageState::Uninstalled
    }
}

/// Does a (possibly failed) listing contain `name`?
fn listing_has(listing: &Result<Vec<String>, String>, name: &str) -> (r: bool)
    ensures
        r == spec_listing_contains(listing, name@),
{
    match listing {
        Result::Err(_) => false,
        Result::Ok(entries) => {
            let mut i: usize = 0;
            while i < entries.len()
                invariant
                    listing is Ok,
                    *entries == listing->Ok_0,
                    i <= entries@.len(),
                    forall|k: int| 0 <= k < i ==> (#[trigger] entries@[k])@ != name@,
                decreases entries@.len() - i,
            {
                if str_eq(entries[i].as_str(), name) {
                    proof {
                        assert(entries.deep_view()[i as int] == entries@[i as int]@);
                        assert(entries.deep_view().contains(name@));
                    }
                    return true;
                }
                i = i + 1;
            }
            proof {
                assert forall|k: int|
                    0 <= k < entries.deep_view().len() implies #[trigger] entries.deep_view()[k]
                    != name@ by {
                    assert(entries.deep_view()[k] == entries@[k]@);
                }
            }
            false
        },
    }
}

/// Get the current state of a package from the two listings queried for the
/// target user. Never fails: a query failure on either listing is treated as
/// absence.
pub fn get_package_state(
    package_name: &str,
    enabled_listing: &Result<Vec<String>, String>,
    disabled_listing: &Result<Vec<String>, String>,
) -> (r: Result<PackageState, String>)
    ensures
        r is Ok,
        r->Ok_0 == spec_observed_state(package_name@, enabled_listing, disabled_listing),
{
    if listing_has(enabled_listing, package_name) {
        Result::Ok(PackageState::Enabled)
    } else if listing_has(disabled_listing, package_name) {
        Result::Ok(PackageState::Disabled)
    } else {
        Result::Ok(PackageState::Uninstalled)
    }
}

/// Verify the current state of a package, resolving any ambiguity to
/// `Uninstalled`.
pub fn verify_package_state(
    package_name: &str,
    enabled_listing: &Result<Vec<String>, String>,
    disabled_listing: &Result<Vec<String>, String>,
) -> (r: PackageState)
    ensures
        r == spec_observed_state(package_name@, enabled_listing, disabled_listing),
{
    match get_package_state(package_name, enabled_listing, disabled_listing) {
        Result::Ok(state) => state,
        Result::Err(_) => PackageState::Uninstalled,
    }
}

} // verus!
