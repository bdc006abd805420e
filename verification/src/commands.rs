//! Command synthesizer: a pure mapping from (current state, wanted state,
//! API level, target user) to the ordered list of shell command lines that
//! move a package between lifecycle states.
//!
//! The first command of a non-empty list is the single state-changing
//! command; anything after it is cleanup only. Command text follows the wire
//! grammar `"<verb>[ --user <id>] <package>"` exactly.

use vstd::prelude::*;
use vstd::string::StringExecFns;
use vstd::slice::slice_index_get;

use crate::model::CorePackage;
use crate::model::PackageState;
use crate::model::Phone;
use crate::model::User;
use crate::strings::push_u16_dec;
use crate::strings::spec_dec;

verus! {

/// Shell command that wipes a package's data; appended as cleanup after
/// certain disable/uninstall transitions on older API levels.
pub const PM_CLEAR_PACK: &'static str = "pm clear";

/// Minimum inclusive Android SDK version that supports multi-user mode
/// (Lollipop 5.0).
pub const MULTI_USER_SDK: u8 = 21;

/// Check if a device might support multi-user mode, by comparing its SDK
/// version. `true` is not reliable; only `false` can be trusted.
pub fn supports_multi_user(dev: &Phone) -> (r: bool)
    ensures
        r == (dev.android_sdk >= MULTI_USER_SDK),
{
    dev.android_sdk >= MULTI_USER_SDK
}

/// The user-targeting fragment: `" --user <id>"`, or empty when no specific
/// user is targeted.
pub open spec fn spec_user_flag(user: Option<User>) -> Seq<char> {
    match user {
        Option::None => Seq::empty(),
        Option::Some(u) => " --user "@ + spec_dec(u.id as nat),
    }
}

/// A full command line: verb, then the user flag, then a space and the
/// package name.
pub open spec fn spec_command(verb: Seq<char>, package: Seq<char>, user: Option<User>) -> Seq<
    char,
> {
    verb + spec_user_flag(user) + " "@ + package
}

/// The user the synthesizer targets: the selected user exactly when the
/// device's SDK supports multi-user mode.
pub open spec fn spec_target_user(user: User, sdk: u8) -> Option<User> {
    if sdk >= MULTI_USER_SDK {
        Option::Some(user)
    } else {
        Option::None
    }
}

/// The transition table: ordered verbs for moving a package from `current`
/// to `wanted` at API level `sdk`. The state-changing verb always comes
/// first. Restoring an uninstalled package below SDK 19 is outside the
/// table; callers must not request it.
pub open spec fn spec_transition_verbs(
    wanted: PackageState,
    current: PackageState,
    sdk: u8,
) -> Seq<Seq<char>> {
    match wanted {
        PackageState::Enabled => match current {
            PackageState::Disabled => seq!["pm enable"@],
            PackageState::Uninstalled => if sdk >= 23 {
                seq!["cmd package install-existing"@]
            } else if sdk >= 21 {
                seq!["pm unhide"@]
            } else if sdk >= 19 {
                seq!["pm unblock"@, "pm clear"@]
            } else {
                Seq::empty()
            },
            _ => Seq::empty(),
        },
        PackageState::Disabled => match current {
            PackageState::Uninstalled | PackageState::Enabled => if sdk >= 23 {
                seq!["pm disable-user"@, "am force-stop"@, "pm clear"@]
            } else {
                Seq::empty()
            },
            _ => Seq::empty(),
        },
        PackageState::Uninstalled => match current {
            PackageState::Enabled | PackageState::Disabled => if sdk >= 23 {
                seq!["pm uninstall"@]
            } else if sdk >= 21 {
                seq!["pm hide"@, "pm clear"@]
            } else {
                seq!["pm block"@, "pm clear"@]
            },
            _ => Seq::empty(),
        },
        PackageState::All => Seq::empty(),
    }
}

/// The request is inside the transition table. The only combination outside
/// it is restoring an uninstalled package on a device below SDK 19.
pub open spec fn valid_transition_request(
    wanted: PackageState,
    current: PackageState,
    sdk: u8,
) -> bool {
    !(wanted is Enabled && current is Uninstalled && sdk < 19)
}

/// One command line per verb, all on a common package and user.
pub open spec fn spec_build_requests(
    verbs: Seq<Seq<char>>,
    package: Seq<char>,
    user: Option<User>,
) -> Seq<Seq<char>> {
    verbs.map_values(|v: Seq<char>| spec_command(v, package, user))
}

/// The full synthesized command list for one transition.
pub open spec fn spec_state_commands(
    package: Seq<char>,
    current: PackageState,
    wanted: PackageState,
    sdk: u8,
    user: Option<User>,
) -> Seq<Seq<char>> {
    spec_build_requests(spec_transition_verbs(wanted, current, sdk), package, user)
}

/// Build the user-targeting fragment. `None` yields an empty string, not
/// `" --user 0"`.
pub fn user_flag(user_id: Option<User>) -> (r: String)
    ensures
        r@ == spec_user_flag(user_id),
{
    match user_id {
        Option::None => String::new(),
        Option::Some(user) => {
            let mut s = String::from_str(" --user ");
            push_u16_dec(&mut s, user.id);
            s
        },
    }
}

/// Build one command line per verb, all acting on a common `package` and
/// `user`.
pub fn request_builder(commands: &[&str], package: &str, user: Option<User>) -> (r: Vec<String>)
    ensures
        r.deep_view() == spec_build_requests(commands.deep_view(), package@, user),
{
    let flag: String = user_flag(user);
    let mut out: Vec<String> = Vec::new();
    let mut i: usize = 0;
    while i < commands.len()
        invariant
            i <= commands@.len(),
            out@.len() == i,
            flag@ == spec_user_flag(user),
            forall|k: int|
                0 <= k < i ==> (#[trigger] out@[k])@ == spec_command(
                    commands@[k]@,
                    package@,
                    user,
                ),
        decreases commands@.len() - i,
    {
        let verb: &&str = slice_index_get(commands, i);
        let mut line: String = String::from_str(*verb);
        line.append(flag.as_str());
        line.append(" ");
        line.append(package);
        out.push(line);
        i = i + 1;
    }
    proof {
        assert forall|k: int| 0 <= k < out@.len() implies out.deep_view()[k]
            == spec_build_requests(commands.deep_view(), package@, user)[k] by {
            assert(out.deep_view()[k] == out@[k]@);
            assert(commands.deep_view()[k] == commands@[k]@);
        }
        assert(out.deep_view() =~= spec_build_requests(commands.deep_view(), package@, user));
    }
    out
}

/// Synthesize the ordered command list that moves `package` from its current
/// state to `wanted_state` on `phone`, targeting `selected_user` when the
/// device supports multi-user mode. Empty when the wanted state equals the
/// current one or is the `All` wildcard.
pub fn apply_pkg_state_commands(
    package: &CorePackage,
    wanted_state: PackageState,
    selected_user: User,
    phone: &Phone,
) -> (r: Vec<String>)
    requires
        valid_transition_request(wanted_state, package.state, phone.android_sdk),
    ensures
        r.deep_view() == spec_state_commands(
            package.name@,
            package.state,
            wanted_state,
            phone.android_sdk,
            spec_target_user(selected_user, phone.android_sdk),
        ),
{
    let commands: Vec<&str> = match wanted_state {
        PackageState::Enabled => match package.state {
            PackageState::Disabled => vec!["pm enable"],
            PackageState::Uninstalled => if phone.android_sdk >= 23 {
                vec!["cmd package install-existing"]
            } else if phone.android_sdk >= 21 {
                vec!["pm unhide"]
            } else {
                vec!["pm unblock", PM_CLEAR_PACK]
            },
            _ => Vec::new(),
        },
        PackageState::Disabled => match package.state {
            PackageState::Uninstalled | PackageState::Enabled => if phone.android_sdk >= 23 {
                vec!["pm disable-user", "am force-stop", PM_CLEAR_PACK]
            } else {
                Vec::new()
            },
            _ => Vec::new(),
        },
        PackageState::Uninstalled => match package.state {
            PackageState::Enabled | PackageState::Disabled => if phone.android_sdk >= 23 {
                vec!["pm uninstall"]
            } else if phone.android_sdk >= 21 {
                vec!["pm hide", PM_CLEAR_PACK]
            } else {
                vec!["pm block", PM_CLEAR_PACK]
            },
            _ => Vec::new(),
        },
        PackageState::All => Vec::new(),
    };
    proof {
        assert(commands.deep_view() =~~= spec_transition_verbs(
            wanted_state,
            package.state,
            phone.android_sdk,
        ));
    }
    let user: Option<User> = if supports_multi_user(phone) {
        Option::Some(selected_user)
    } else {
        Option::None
    };
    request_builder(commands.as_slice(), package.name.as_str(), user)
}

/// A request for the state the package is already in, or for the `All`
/// wildcard, always synthesizes an empty command list.
pub proof fn lemma_noop_request_yields_empty(
    package: Seq<char>,
    current: PackageState,
    wanted: PackageState,
    sdk: u8,
    user: Option<User>,
)
    requires
        wanted == current || wanted is All,
    ensures
        spec_state_commands(package, current, wanted, sdk, user) == Seq::<Seq<char>>::empty(),
{
    assert(spec_transition_verbs(wanted, current, sdk) =~= Seq::<Seq<char>>::empty());
    assert(spec_state_commands(package, current, wanted, sdk, user) =~= Seq::<
        Seq<char>,
    >::empty());
}

/// Synthesizing the uninstall of an enabled package and then the restore of
/// an uninstalled one, on the same API bracket, never yields identical
/// command text for both directions: there is no accidental aliasing between
/// the two transitions.
pub proof fn lemma_round_trip_commands_differ(package: Seq<char>, sdk: u8, user: Option<User>)
    requires
        sdk >= 19,
    ensures
        spec_state_commands(package, PackageState::Enabled, PackageState::Uninstalled, sdk, user)
            != spec_state_commands(
            package,
            PackageState::Uninstalled,
            PackageState::Enabled,
            sdk,
            user,
        ),
{
    let down = spec_transition_verbs(PackageState::Uninstalled, PackageState::Enabled, sdk);
    let up = spec_transition_verbs(PackageState::Enabled, PackageState::Uninstalled, sdk);
    let downs = spec_state_commands(
        package,
        PackageState::Enabled,
        PackageState::Uninstalled,
        sdk,
        user,
    );
    let ups = spec_state_commands(
        package,
        PackageState::Uninstalled,
        PackageState::Enabled,
        sdk,
        user,
    );
    assert(downs.len() == down.len() && ups.len() == up.len());
    if sdk >= 23 {
        assert(downs[0] == spec_command(down[0], package, user));
        assert(ups[0] == spec_command(up[0], package, user));
        assert(down[0].len() != up[0].len()) by {
            reveal_strlit("pm uninstall");
            reveal_strlit("cmd package install-existing");
        }
        assert(downs[0].len() != ups[0].len());
    } else if sdk >= 21 {
        assert(down.len() == 2 && up.len() == 1);
    } else {
        assert(downs[0] == spec_command(down[0], package, user));
        assert(ups[0] == spec_command(up[0], package, user));
        assert(down[0].len() != up[0].len()) by {
            reveal_strlit("pm block");
            reveal_strlit("pm unblock");
        }
        assert(downs[0].len() != ups[0].len());
    }
}

} // verus!
