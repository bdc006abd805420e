//! Fallback / repair engine: when the observed state after a primary command
//! sequence differs from the wanted state, choose a corrective action.
//!
//! Planning is pure: [`attempt_fallback`] maps the (wanted, actual) pair to
//! a plan holding the corrective command(s), or to a terminal failure when
//! no fallback is defined for the pair. The caller executes the plan's first
//! command over the transport and feeds the result to
//! [`fallback_phase_one_outcome`]; for the two-phase repair of an enable
//! that left the package disabled, a second command may follow, concluded by
//! [`fallback_phase_two_outcome`].

use vstd::prelude::*;
use vstd::string::StringExecFns;

use crate::commands::apply_pkg_state_commands;
use crate::commands::spec_state_commands;
use crate::commands::spec_target_user;
use crate::cross_user::spec_state_name;
use crate::cross_user::state_name;
use crate::model::CorePackage;
use crate::model::PackageState;
use crate::model::Phone;
use crate::model::User;

verus! {

/// Which transition a fallback plan applies.
#[derive(Debug, Clone, Copy, PartialEq, Eq, Structural)]
pub enum FallbackKind {
    /// The package was meant to be uninstalled but is enabled: disable it.
    Disable,
    /// The package was meant to be disabled but is enabled: uninstall it.
    Uninstall,
    /// The package was meant to be enabled but is disabled: uninstall it,
    /// then restore it.
    Reinstall,
}

/// A chosen corrective action. `first_command` is the state-changing command
/// to execute; `second_command` is the restore command of a two-phase
/// reinstall, absent when the device's API level offers none.
#[derive(Debug, Clone, PartialEq, Eq)]
pub struct FallbackPlan {
    pub kind: FallbackKind,
    pub first_command: String,
    pub second_command: Option<String>,
}

/// What to do after the plan's first command was executed.
#[derive(Debug, PartialEq, Eq)]
pub enum FallbackStep {
    /// The engine is finished, with its success message or failure text.
    Done(Result<String, String>),
    /// Execute this second command, then conclude with
    /// [`fallback_phase_two_outcome`].
    RunSecond(String),
}

/// The plan chosen for a (wanted, actual) pair: the corrective transition's
/// state-changing command and, for a reinstall, the restore command, or the
/// error text when no fallback applies.
pub open spec fn spec_fallback_plan(
    name: Seq<char>,
    wanted: PackageState,
    actual: PackageState,
    user: User,
    sdk: u8,
) -> Result<(FallbackKind, Seq<char>, Option<Seq<char>>), Seq<char>> {
    let u = spec_target_user(user, sdk);
    if wanted is Uninstalled && actual is Enabled {
        let cmds = spec_state_commands(name, PackageState::Enabled, PackageState::Disabled, sdk, u);
        if cmds.len() > 0 {
            Result::Ok((FallbackKind::Disable, cmds[0], Option::None))
        } else {
            Result::Err("No disable command available for this Android version"@)
        }
    } else if wanted is Disabled && actual is Enabled {
        let cmds = spec_state_commands(
            name,
            PackageState::Enabled,
            PackageState::Uninstalled,
            sdk,
            u,
        );
        if cmds.len() > 0 {
            Result::Ok((FallbackKind::Uninstall, cmds[0], Option::None))
        } else {
            Result::Err("No uninstall command available for this Android version"@)
        }
    } else if wanted is Enabled && actual is Disabled {
        let un = spec_state_commands(
            name,
            PackageState::Disabled,
            PackageState::Uninstalled,
            sdk,
            u,
        );
        if un.len() > 0 {
            let second = if sdk >= 19 {
                let en = spec_state_commands(
                    name,
                    PackageState::Uninstalled,
                    PackageState::Enabled,
                    sdk,
                    u,
                );
                if en.len() > 0 {
                    Option::Some(en[0])
                } else {
                    Option::None
                }
            } else {
                Option::None
            };
            Result::Ok((FallbackKind::Reinstall, un[0], second))
        } else {
            Result::Err("No uninstall command available for reinstall attempt"@)
        }
    } else {
        Result::Err(
            "No fallback available for wanted state "@ + spec_state_name(wanted)
                + " and actual state "@ + spec_state_name(actual),
        )
    }
}

/// Choose the corrective action for a package whose observed state after a
/// primary command sequence differs from the wanted state.
pub fn attempt_fallback(
    package: &CorePackage,
    wanted_state: PackageState,
    actual_state: PackageState,
    user: User,
    phone: &Phone,
) -> (r: Result<FallbackPlan, String>)
    ensures
        ({
            let plan = spec_fallback_plan(
                package.name@,
                wanted_state,
                actual_state,
                user,
                phone.android_sdk,
            );
            match r {
                Result::Ok(p) => plan matches Result::Ok(sp) && p.kind == sp.0
                    && p.first_command@ == sp.1 && (p.second_command is Some <==> sp.2 is Some) && (
                p.second_command matches Option::Some(c) ==> c@ == sp.2->0),
                Result::Err(e) => plan matches Result::Err(t) && e@ == t,
            }
        }),
{
    match (wanted_state, actual_state) {
        (PackageState::Uninstalled, PackageState::Enabled) => {
            let core_package = CorePackage {
                name: package.name.clone(),
                state: PackageState::Enabled,
                description: package.description.clone(),
                removal: package.removal,
            };
            let commands = apply_pkg_state_commands(
                &core_package,
                PackageState::Disabled,
                user,
                phone,
            );
            if commands.len() > 0 {
                let first: String = commands[0].clone();
                Result::Ok(
                    FallbackPlan {
                        kind: FallbackKind::Disable,
                        first_command: first,
                        second_command: Option::None,
                    },
                )
            } else {
                Result::Err(
                    String::from_str("No disable command available for this Android version"),
                )
            }
        },
        (PackageState::Disabled, PackageState::Enabled) => {
            let core_package = CorePackage {
                name: package.name.clone(),
                state: PackageState::Enabled,
                description: package.description.clone(),
                removal: package.removal,
            };
            let commands = apply_pkg_state_commands(
                &core_package,
                PackageState::Uninstalled,
                user,
                phone,
            );
            if commands.len() > 0 {
                let first: String = commands[0].clone();
                Result::Ok(
                    FallbackPlan {
                        kind: FallbackKind::Uninstall,
                        first_command: first,
                        second_command: Option::None,
                    },
                )
            } else {
                Result::Err(
                    String::from_str("No uninstall command available for this Android version"),
                )
            }
        },
        (PackageState::Enabled, PackageState::Disabled) => {
            let core_package = CorePackage {
                name: package.name.clone(),
                state: PackageState::Disabled,
                description: package.description.clone(),
                removal: package.removal,
            };
            let uninstall_commands = apply_pkg_state_commands(
                &core_package,
                PackageState::Uninstalled,
                user,
                phone,
            );
            if uninstall_commands.len() > 0 {
                let first: String = uninstall_commands[0].clone();
                let second: Option<String> = if phone.android_sdk >= 19 {
                    let reinstalled = CorePackage {
                        name: package.name.clone(),
                        state: PackageState::Uninstalled,
                        description: package.description.clone(),
                        removal: package.removal,
                    };
                    let enable_commands = apply_pkg_state_commands(
                        &reinstalled,
                        PackageState::Enabled,
                        user,
                        phone,
                    );
                    if enable_commands.len() > 0 {
                        Option::Some(enable_commands[0].clone())
                    } else {
                        Option::None
                    }
                } else {
                    Option::None
                };
                Result::Ok(
                    FallbackPlan {
                        kind: FallbackKind::Reinstall,
                        first_command: first,
                        second_command: second,
                    },
                )
            } else {
                Result::Err(String::from_str("No uninstall command available for reinstall attempt"))
            }
        },
        _ => {
            let mut s = String::from_str("No fallback available for wanted state ");
            s.append(state_name(wanted_state));
            s.append(" and actual state ");
            s.append(state_name(actual_state));
            proof {
                assert(s@ =~= "No fallback available for wanted state "@ + spec_state_name(
                    wanted_state,
                ) + " and actual state "@ + spec_state_name(actual_state));
            }
            Result::Err(s)
        },
    }
}

/// Interpret the transport result of the plan's first command: the engine's
/// final message, or the second command still to run.
pub fn fallback_phase_one_outcome(plan: &FallbackPlan, exec_result: &Result<String, String>) -> (r:
    FallbackStep)
    ensures
        plan.kind is Disable && exec_result is Ok ==> (r matches FallbackStep::Done(d)
            && d matches Result::Ok(m) && m@ == "disabled package instead of uninstalling"@),
        plan.kind is Disable && exec_result is Err ==> (r matches FallbackStep::Done(d)
            && d matches Result::Err(m) && m@ == "Failed to disable package: "@
            + exec_result->Err_0@),
        plan.kind is Uninstall && exec_result is Ok ==> (r matches FallbackStep::Done(d)
            && d matches Result::Ok(m) && m@ == "uninstalled package instead of disabling"@),
        plan.kind is Uninstall && exec_result is Err ==> (r matches FallbackStep::Done(d)
            && d matches Result::Err(m) && m@ == "Failed to uninstall package: "@
            + exec_result->Err_0@),
        plan.kind is Reinstall && exec_result is Err ==> (r matches FallbackStep::Done(d)
            && d matches Result::Err(m) && m@ == "Failed to uninstall package for reinstall: "@
            + exec_result->Err_0@),
        plan.kind is Reinstall && exec_result is Ok && plan.second_command is Some ==> (
        r matches FallbackStep::RunSecond(next) && next@ == plan.second_command->0@),
        plan.kind is Reinstall && exec_result is Ok && plan.second_command is None ==> (
        r matches FallbackStep::Done(d) && d matches Result::Ok(m) && m@
            == "uninstalled package but couldn't reinstall"@),
{
    match plan.kind {
        FallbackKind::Disable => match exec_result {
            Result::Ok(_) => FallbackStep::Done(
                Result::Ok(String::from_str("disabled package instead of uninstalling")),
            ),
            Result::Err(e) => {
                let mut m = String::from_str("Failed to disable package: ");
                m.append(e.as_str());
                FallbackStep::Done(Result::Err(m))
            },
        },
        FallbackKind::Uninstall => match exec_result {
            Result::Ok(_) => FallbackStep::Done(
                Result::Ok(String::from_str("uninstalled package instead of disabling")),
            ),
            Result::Err(e) => {
                let mut m = String::from_str("Failed to uninstall package: ");
                m.append(e.as_str());
                FallbackStep::Done(Result::Err(m))
            },
        },
        FallbackKind::Reinstall => match exec_result {
            Result::Err(e) => {
                let mut m = String::from_str("Failed to uninstall package for reinstall: ");
                m.append(e.as_str());
                FallbackStep::Done(Result::Err(m))
            },
            Result::Ok(_) => match &plan.second_command {
                Option::Some(c) => FallbackStep::RunSecond(c.clone()),
                Option::None => FallbackStep::Done(
                    Result::Ok(String::from_str("uninstalled package but couldn't reinstall")),
                ),
            },
        },
    }
}

/// Interpret the transport result of a reinstall plan's second command.
pub fn fallback_phase_two_outcome(exec_result: &Result<String, String>) -> (r: Result<
    String,
    String,
>)
    ensures
        exec_result is Ok ==> (r matches Result::Ok(m) && m@
            == "uninstalled and reinstalled package to enable it"@),
        exec_result is Err ==> (r matches Result::Err(m) && m@ == "Failed to reinstall package: "@
            + exec_result->Err_0@),
{
    match exec_result {
        Result::Ok(_) => Result::Ok(
            String::from_str("uninstalled and reinstalled package to enable it"),
        ),
        Result::Err(e) => {
            let mut m = String::from_str("Failed to reinstall package: ");
            m.append(e.as_str());
            Result::Err(m)
        },
    }
}

/// For a package that was meant to be uninstalled but is observed enabled,
/// the engine always chooses the Disable transition as its corrective
/// action: the plan's command is the state-changing head of the Disable
/// command list, and the plan fails exactly when that transition offers no
/// commands on the device's API level.
pub proof fn lemma_fallback_uninstalled_enabled_disables(name: Seq<char>, user: User, sdk: u8)
    ensures
        ({
            let cmds = spec_state_commands(
                name,
                PackageState::Enabled,
                PackageState::Disabled,
                sdk,
                spec_target_user(user, sdk),
            );
            let plan = spec_fallback_plan(
                name,
                PackageState::Uninstalled,
                PackageState::Enabled,
                user,
                sdk,
            );
            &&& cmds.len() > 0 ==> plan == Result::<
                (FallbackKind, Seq<char>, Option<Seq<char>>),
                Seq<char>,
            >::Ok((FallbackKind::Disable, cmds[0], Option::None))
            &&& cmds.len() == 0 ==> plan == Result::<
                (FallbackKind, Seq<char>, Option<Seq<char>>),
                Seq<char>,
            >::Err("No disable command available for this Android version"@)
        }),
{
}

} // verus!
