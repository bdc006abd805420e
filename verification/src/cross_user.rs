//! Cross-user consistency detector: after an operation on one user profile
//! succeeded, scan the sibling profiles' observed states for unexpected
//! propagation caused by manufacturer firmware, and word an informational
//! report. The report never reverses or blocks the primary operation.
//!
//! The caller verifies the package's state for every user in the device's
//! snapshot (see [`crate::state::verify_package_state`]) and hands the
//! observed states in, aligned index by index with the device's user list.

use vstd::prelude::*;
use vstd::string::StringExecFns;

use crate::model::PackageState;
use crate::model::Phone;
use crate::model::User;
use crate::strings::push_u16_dec;
use crate::strings::spec_dec;

verus! {

/// Debug-style name of a lifecycle state, as it appears inside reports.
pub open spec fn spec_state_name(s: PackageState) -> Seq<char> {
    match s {
        PackageState::Enabled => "Enabled"@,
        PackageState::Disabled => "Disabled"@,
        PackageState::Uninstalled => "Uninstalled"@,
        PackageState::All => "All"@,
    }
}

/// Executable name of a lifecycle state.
pub fn state_name(s: PackageState) -> (r: &'static str)
    ensures
        r@ == spec_state_name(s),
{
    match s {
        PackageState::Enabled => "Enabled",
        PackageState::Disabled => "Disabled",
        PackageState::Uninstalled => "Uninstalled",
        PackageState::All => "All",
    }
}

/// The (user id, state) pairs of every sibling — a non-protected user other
/// than the target — whose observed state is not `Uninstalled`, in the
/// device's reported order.
pub open spec fn spec_cross_user_states(
    users: Seq<User>,
    states: Seq<PackageState>,
    target: u16,
) -> Seq<(u16, PackageState)>
    recommends
        states.len() == users.len(),
    decreases users.len(),
{
    if users.len() == 0 {
        Seq::empty()
    } else {
        let init = spec_cross_user_states(users.drop_last(), states.drop_last(), target);
        let u = users.last();
        let st = states.last();
        if u.id != target && !u.protected && !(st is Uninstalled) {
            init.push((u.id, st))
        } else {
            init
        }
    }
}

/// The ids of every sibling whose observed state is `Uninstalled`, in the
/// device's reported order.
pub open spec fn spec_uninstalled_siblings(
    users: Seq<User>,
    states: Seq<PackageState>,
    target: u16,
) -> Seq<u16>
    recommends
        states.len() == users.len(),
    decreases users.len(),
{
    if users.len() == 0 {
        Seq::empty()
    } else {
        let init = spec_uninstalled_siblings(users.drop_last(), states.drop_last(), target);
        let u = users.last();
        let st = states.last();
        if u.id != target && !u.protected && st is Uninstalled {
            init.push(u.id)
        } else {
            init
        }
    }
}

/// Check which users besides the target still carry the package. Helps
/// detect OEM-specific cross-user restoration behavior. `sibling_states[i]`
/// is the observed state for `phone.user_list[i]`.
pub fn check_cross_user_package_existence(
    target_user_id: u16,
    phone: &Phone,
    sibling_states: &Vec<PackageState>,
) -> (r: Vec<(u16, PackageState)>)
    requires
        sibling_states@.len() == phone.user_list@.len(),
    ensures
        r@ == spec_cross_user_states(phone.user_list@, sibling_states@, target_user_id),
{
    let mut out: Vec<(u16, PackageState)> = Vec::new();
    let mut i: usize = 0;
    while i < phone.user_list.len()
        invariant
            i <= phone.user_list@.len(),
            sibling_states@.len() == phone.user_list@.len(),
            out@ == spec_cross_user_states(
                phone.user_list@.take(i as int),
                sibling_states@.take(i as int),
                target_user_id,
            ),
        decreases phone.user_list@.len() - i,
    {
        let user: User = phone.user_list[i];
        let st: PackageState = sibling_states[i];
        if user.id != target_user_id && !user.protected && !matches!(st, PackageState::Uninstalled) {
            out.push((user.id, st));
        }
        proof {
            assert(phone.user_list@.take(i + 1).drop_last() =~= phone.user_list@.take(i as int));
            assert(sibling_states@.take(i + 1).drop_last() =~= sibling_states@.take(i as int));
            assert(phone.user_list@.take(i + 1).last() == phone.user_list@[i as int]);
            assert(sibling_states@.take(i + 1).last() == sibling_states@[i as int]);
        }
        i = i + 1;
    }
    proof {
        assert(phone.user_list@.take(i as int) =~= phone.user_list@);
        assert(sibling_states@.take(i as int) =~= sibling_states@);
    }
    out
}

/// Collect the ids of the siblings whose observed state is `Uninstalled`.
fn uninstalled_siblings(
    target_user_id: u16,
    phone: &Phone,
    sibling_states: &Vec<PackageState>,
) -> (r: Vec<u16>)
    requires
        sibling_states@.len() == phone.user_list@.len(),
    ensures
        r@ == spec_uninstalled_siblings(phone.user_list@, sibling_states@, target_user_id),
{
    let mut out: Vec<u16> = Vec::new();
    let mut i: usize = 0;
    while i < phone.user_list.len()
        invariant
            i <= phone.user_list@.len(),
            sibling_states@.len() == phone.user_list@.len(),
            out@ == spec_uninstalled_siblings(
                phone.user_list@.take(i as int),
                sibling_states@.take(i as int),
                target_user_id,
            ),
        decreases phone.user_list@.len() - i,
    {
        let user: User = phone.user_list[i];
        let st: PackageState = sibling_states[i];
        if user.id != target_user_id && !user.protected && matches!(st, PackageState::Uninstalled) {
            out.push(user.id);
        }
        proof {
            assert(phone.user_list@.take(i + 1).drop_last() =~= phone.user_list@.take(i as int));
            assert(sibling_states@.take(i + 1).drop_last() =~= sibling_states@.take(i as int));
            assert(phone.user_list@.take(i + 1).last() == phone.user_list@[i as int]);
            assert(sibling_states@.take(i + 1).last() == sibling_states@[i as int]);
        }
        i = i + 1;
    }
    proof {
        assert(phone.user_list@.take(i as int) =~= phone.user_list@);
        assert(sibling_states@.take(i as int) =~= sibling_states@);
    }
    out
}

/// Label for one (user, state) pair: `user <id> (<State>)`.
pub open spec fn spec_pair_label(p: (u16, PackageState)) -> Seq<char> {
    "user "@ + spec_dec(p.0 as nat) + " ("@ + spec_state_name(p.1) + ")"@
}

/// Comma-separated labels of a pair list.
pub open spec fn spec_pairs_label(pairs: Seq<(u16, PackageState)>) -> Seq<char>
    decreases pairs.len(),
{
    if pairs.len() == 0 {
        Seq::empty()
    } else if pairs.len() == 1 {
        spec_pair_label(pairs[0])
    } else {
        spec_pairs_label(pairs.drop_last()) + ", "@ + spec_pair_label(pairs.last())
    }
}

/// Label for one user id: `user <id>`.
pub open spec fn spec_user_label(id: u16) -> Seq<char> {
    "user "@ + spec_dec(id as nat)
}

/// Comma-separated labels of a user id list.
pub open spec fn spec_users_label(ids: Seq<u16>) -> Seq<char>
    decreases ids.len(),
{
    if ids.len() == 0 {
        Seq::empty()
    } else if ids.len() == 1 {
        spec_user_label(ids[0])
    } else {
        spec_users_label(ids.drop_last()) + ", "@ + spec_user_label(ids.last())
    }
}

/// Build the comma-separated pair list label.
fn pairs_label(pairs: &Vec<(u16, PackageState)>) -> (r: String)
    ensures
        r@ == spec_pairs_label(pairs@),
{
    let mut s = String::new();
    let mut i: usize = 0;
    while i < pairs.len()
        invariant
            i <= pairs@.len(),
            s@ == spec_pairs_label(pairs@.take(i as int)),
        decreases pairs@.len() - i,
    {
        if i > 0 {
            s.append(", ");
        }
        s.append("user ");
        push_u16_dec(&mut s, pairs[i].0);
        s.append(" (");
        s.append(state_name(pairs[i].1));
        s.append(")");
        proof {
            assert(pairs@.take(i + 1).drop_last() =~= pairs@.take(i as int));
            assert(pairs@.take(i + 1).last() == pairs@[i as int]);
            assert(s@ =~= spec_pairs_label(pairs@.take(i + 1)));
        }
        i = i + 1;
    }
    proof {
        assert(pairs@.take(i as int) =~= pairs@);
    }
    s
}

/// Build the comma-separated user list label.
fn users_label(ids: &Vec<u16>) -> (r: String)
    ensures
        r@ == spec_users_label(ids@),
{
    let mut s = String::new();
    let mut i: usize = 0;
    while i < ids.len()
        invariant
            i <= ids@.len(),
            s@ == spec_users_label(ids@.take(i as int)),
        decreases ids@.len() - i,
    {
        if i > 0 {
            s.append(", ");
        }
        s.append("user ");
        push_u16_dec(&mut s, ids[i]);
        proof {
            assert(ids@.take(i + 1).drop_last() =~= ids@.take(i as int));
            assert(ids@.take(i + 1).last() == ids@[i as int]);
            assert(s@ =~= spec_users_label(ids@.take(i + 1)));
        }
        i = i + 1;
    }
    proof {
        assert(ids@.take(i as int) =~= ids@);
    }
    s
}

/// The report the detector produces, or `None` when there is nothing to
/// report. A report is only ever produced when the operation succeeded on
/// the target user and the device has at least two users.
pub open spec fn spec_cross_user_report(
    users: Seq<User>,
    states: Seq<PackageState>,
    target: u16,
    wanted: PackageState,
    actual: PackageState,
) -> Option<Seq<char>> {
    if actual != wanted {
        Option::None
    } else if users.len() < 2 {
        Option::None
    } else {
        let pairs = spec_cross_user_states(users, states, target);
        match wanted {
            PackageState::Uninstalled => {
                if pairs.len() > 0 {
                    Option::Some(
                        "Detected cross-user restoration: package exists on "@
                            + spec_pairs_label(pairs) + " after uninstalling from user "@
                            + spec_dec(target as nat),
                    )
                } else {
                    let affected = spec_uninstalled_siblings(users, states, target);
                    if affected.len() > 0 {
                        Option::Some(
                            "Detected cross-user uninstall: package was also uninstalled from "@
                                + spec_users_label(affected) + " after uninstalling from user "@
                                + spec_dec(target as nat),
                        )
                    } else {
                        Option::None
                    }
                }
            },
            PackageState::Enabled | PackageState::Disabled => {
                if pairs.len() > 0 {
                    Option::Some(
                        "Detected cross-user restoration: package exists on "@
                            + spec_pairs_label(pairs) + " after "@ + (if wanted is Enabled {
                            "enabling"@
                        } else {
                            "disabling"@
                        }) + " from user "@ + spec_dec(target as nat),
                    )
                } else {
                    Option::None
                }
            },
            _ => Option::None,
        }
    }
}

/// Detect cross-user behavior after an operation and word the notification.
/// Covers the three kinds of unexpected propagation: a package reappearing
/// on other users after an uninstall, an uninstall spreading to other users,
/// and a package appearing on other users after a restore. Runs only when
/// the operation's observed result equals its intent and the device has at
/// least two users.
pub fn detect_cross_user_behavior(
    target_user_id: u16,
    wanted_state: PackageState,
    actual_state: PackageState,
    phone: &Phone,
    sibling_states: &Vec<PackageState>,
) -> (r: Option<String>)
    requires
        sibling_states@.len() == phone.user_list@.len(),
    ensures
        r is Some <==> spec_cross_user_report(
            phone.user_list@,
            sibling_states@,
            target_user_id,
            wanted_state,
            actual_state,
        ) is Some,
        r matches Option::Some(m) ==> m@ == spec_cross_user_report(
            phone.user_list@,
            sibling_states@,
            target_user_id,
            wanted_state,
            actual_state,
        )->0,
{
    if actual_state != wanted_state {
        return Option::None;
    }
    if phone.user_list.len() < 2 {
        return Option::None;
    }
    let pairs = check_cross_user_package_existence(target_user_id, phone, sibling_states);
    match wanted_state {
        PackageState::Uninstalled => {
            if pairs.len() > 0 {
                let label = pairs_label(&pairs);
                let mut s = String::from_str(
                    "Detected cross-user restoration: package exists on ",
                );
                s.append(label.as_str());
                s.append(" after uninstalling from user ");
                push_u16_dec(&mut s, target_user_id);
                proof {
                    assert(s@ =~= spec_cross_user_report(
                        phone.user_list@,
                        sibling_states@,
                        target_user_id,
                        wanted_state,
                        actual_state,
                    )->0);
                }
                Option::Some(s)
            } else {
                let affected = uninstalled_siblings(target_user_id, phone, sibling_states);
                if affected.len() > 0 {
                    let label = users_label(&affected);
                    let mut s = String::from_str(
                        "Detected cross-user uninstall: package was also uninstalled from ",
                    );
                    s.append(label.as_str());
                    s.append(" after uninstalling from user ");
                    push_u16_dec(&mut s, target_user_id);
                    proof {
                        assert(s@ =~= spec_cross_user_report(
                            phone.user_list@,
                            sibling_states@,
                            target_user_id,
                            wanted_state,
                            actual_state,
                        )->0);
                    }
                    Option::Some(s)
                } else {
                    Option::None
                }
            }
        },
        PackageState::Enabled | PackageState::Disabled => {
            if pairs.len() > 0 {
                let label = pairs_label(&pairs);
                let mut s = String::from_str(
                    "Detected cross-user restoration: package exists on ",
                );
                s.append(label.as_str());
                s.append(" after ");
                if matches!(wanted_state, PackageState::Enabled) {
                    s.append("enabling");
                } else {
                    s.append("disabling");
                }
                s.append(" from user ");
                push_u16_dec(&mut s, target_user_id);
                proof {
                    assert(s@ =~= spec_cross_user_report(
                        phone.user_list@,
                        sibling_states@,
                        target_user_id,
                        wanted_state,
                        actual_state,
                    )->0);
                }
                Option::Some(s)
            } else {
                Option::None
            }
        },
        _ => Option::None,
    }
}

/// The detector is silent on a single-user device: whenever the device has
/// fewer than two users, no report is produced, for any wanted/actual
/// combination.
pub proof fn lemma_detector_silent_below_two_users(
    users: Seq<User>,
    states: Seq<PackageState>,
    target: u16,
    wanted: PackageState,
    actual: PackageState,
)
    requires
        users.len() < 2,
    ensures
        spec_cross_user_report(users, states, target, wanted, actual) is None,
{
}

} // verus!
