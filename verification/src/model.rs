//! Value types describing a discovered device, its user profiles, and the
//! minimal read-only view of a package that an operation works on.

use vstd::prelude::*;
use vstd::string::StringExecFns;

verus! {

/// Lifecycle state of a package on a device. `All` is a wildcard used only
/// for filtering; it is never a real device state.
#[derive(Debug, Clone, Copy, PartialEq, Eq, Structural)]
pub enum PackageState {
    Enabled,
    Disabled,
    Uninstalled,
    All,
}

/// Removal-safety classification of a package, assigned by curated lists.
#[derive(Debug, Clone, Copy, PartialEq, Eq, Structural)]
pub enum Removal {
    Recommended,
    Advanced,
    Expert,
    Unsafe,
    Unlisted,
}

impl Default for Removal {
    /// A package not found in any curated list is unlisted.
    fn default() -> (r: Self)
        ensures
            r is Unlisted,
    {
        Removal::Unlisted
    }
}

/// An on-device user profile. `index` is the position in the device's
/// reported ordering; `protected` marks a secured/work profile that must
/// never be targeted by mutating commands.
#[derive(Debug, Clone, Copy, PartialEq, Eq, Structural)]
pub struct User {
    pub id: u16,
    pub index: usize,
    pub protected: bool,
}

impl Default for User {
    fn default() -> (r: Self)
        ensures
            r.id == 0,
            r.index == 0,
            !r.protected,
    {
        User { id: 0, index: 0, protected: false }
    }
}

/// An Android device, typically a phone. Snapshots are replaced wholesale on
/// each discovery poll and never mutated in place.
#[derive(Debug, Clone, PartialEq, Eq)]
pub struct Phone {
    /// Non-market name (brand followed by model).
    pub model: String,
    /// Android API level version; 0 means unknown or disconnected.
    pub android_sdk: u8,
    /// User profiles in the device's reported order.
    pub user_list: Vec<User>,
    /// Unique serial identifier.
    pub adb_id: String,
}

impl Default for Phone {
    fn default() -> (r: Self)
        ensures
            r.model@ == "fetching devices..."@,
            r.android_sdk == 0,
            r.user_list@ == Seq::<User>::empty(),
            r.adb_id@ == Seq::<char>::empty(),
    {
        Phone {
            model: String::from_str("fetching devices..."),
            android_sdk: 0,
            user_list: Vec::new(),
            adb_id: String::new(),
        }
    }
}

/// Errors yielded by the debug-bridge transport.
#[derive(Debug, Clone)]
pub enum AdbError {
    Generic(String),
}

/// Minimum information needed to process a state-change request for one
/// package.
#[derive(Debug, Clone, PartialEq, Eq)]
pub struct CorePackage {
    pub name: String,
    pub state: PackageState,
    pub description: String,
    pub removal: Removal,
}

} // verus!
