//! The fallback engine: a fixed lookup that selects a substitute action
//! when the verified state after an operation does not match the wanted
//! state. Exactly one fallback attempt is made per mismatch; the plan is
//! chosen here, the caller runs it and feeds the results back into the
//! outcome functions.

use vstd::prelude::*;
use crate::sync::{plan_commands, CorePackage, Phone, User, apply_pkg_state_commands};
use crate::text::views_of;
use crate::uad_lists::{state_debug, PackageState};

verus! {

/// Which substitute action the fallback table selects for a
/// `(wanted, actual)` mismatch.
#[derive(Debug, Clone, Copy, PartialEq, Eq, Structural)]
pub enum FallbackKind {
    /// Wanted `Uninstalled`, found `Enabled`: disable instead.
    DisableInstead,
    /// Wanted `Disabled`, found `Enabled`: uninstall instead, then verify.
    UninstallInstead,
    /// Wanted `Enabled`, found `Disabled`: uninstall, then restore.
    ReinstallAfterUninstall,
    /// Any other pair: no substitute action exists.
    NoFallback,
}

/// The fallback table. Total over all state pairs: every pair maps to a
/// defined substitute action or to the explicit `NoFallback` answer.
pub open spec fn fallback_kind(wanted: PackageState, actual: PackageState) -> FallbackKind {
    match (wanted, actual) {
        (PackageState::Uninstalled, PackageState::Enabled) => FallbackKind::DisableInstead,
        (PackageState::Disabled, PackageState::Enabled) => FallbackKind::UninstallInstead,
        (PackageState::Enabled, PackageState::Disabled) => FallbackKind::ReinstallAfterUninstall,
        _ => FallbackKind::NoFallback,
    }
}

/// `p` with its current state replaced.
pub open spec fn with_state(p: CorePackage, s: PackageState) -> CorePackage {
    (CorePackage {
        name: p.name,
        description: p.description,
        removal: p.removal,
        state: s,
        list: p.list,
    })
}

/// The message reported when no fallback exists for a pair of states.
pub open spec fn no_fallback_message(wanted: PackageState, actual: PackageState) -> Seq<char> {
    "No fallback available for wanted state "@ + state_debug(wanted)
        + " and actual state "@ + state_debug(actual)
}

/// A selected fallback, with the commands the caller must run.
pub enum FallbackPlan {
    /// Run the first of these commands to disable the package instead.
    DisableInstead { commands: Vec<String> },
    /// Run the first of these commands to uninstall the package instead,
    /// then re-verify that it is gone.
    UninstallInstead { commands: Vec<String> },
    /// Run the first `uninstall` command; then, if `reinstall` is
    /// non-empty, run its first command to restore the package.
    ReinstallAfterUninstall { uninstall: Vec<String>, reinstall: Vec<String> },
    /// No substitute action; the message names both states.
    NoFallback { message: String },
}

/// Selects the fallback for a `(wanted, actual)` mismatch. The policy is a
/// fixed lookup, not a search, and never recurses:
/// wanted `Uninstalled` but actual `Enabled` plans a disable; wanted
/// `Disabled` but actual `Enabled` plans an uninstall; wanted `Enabled` but
/// actual `Disabled` plans an uninstall followed by a restore; every other
/// pair answers `NoFallback` with a message naming both states.
pub fn attempt_fallback(
    package: &CorePackage,
    wanted_state: PackageState,
    actual_state: PackageState,
    user: User,
    phone: &Phone,
) -> (r: FallbackPlan)
    requires
        !user.protected,
    ensures
        fallback_kind(wanted_state, actual_state) == FallbackKind::DisableInstead ==> (
        r matches FallbackPlan::DisableInstead { commands } && views_of(commands@)
            == plan_commands(
            with_state(*package, PackageState::Enabled),
            PackageState::Disabled,
            user,
            *phone,
        )),
        fallback_kind(wanted_state, actual_state) == FallbackKind::UninstallInstead ==> (
        r matches FallbackPlan::UninstallInstead { commands } && views_of(commands@)
            == plan_commands(
            with_state(*package, PackageState::Enabled),
            PackageState::Uninstalled,
            user,
            *phone,
        )),
        fallback_kind(wanted_state, actual_state) == FallbackKind::ReinstallAfterUninstall
            ==> (r matches FallbackPlan::ReinstallAfterUninstall { uninstall, reinstall }
            && views_of(uninstall@) == plan_commands(
            with_state(*package, PackageState::Disabled),
            PackageState::Uninstalled,
            user,
            *phone,
        ) && views_of(reinstall@) == plan_commands(
            with_state(*package, PackageState::Uninstalled),
            PackageState::Enabled,
            user,
            *phone,
        )),
        fallback_kind(wanted_state, actual_state) == FallbackKind::NoFallback ==> (
        r matches FallbackPlan::NoFallback { message } && message@ == no_fallback_message(
            wanted_state,
            actual_state,
        )),
{
    match (wanted_state, actual_state) {
        (PackageState::Uninstalled, PackageState::Enabled) => {
            let pkg = crate::sync::package_with_state(package, PackageState::Enabled);
            let commands = apply_pkg_state_commands(&pkg, PackageState::Disabled, user, phone);
            FallbackPlan::DisableInstead { commands }
        },
        (PackageState::Disabled, PackageState::Enabled) => {
            let pkg = crate::sync::package_with_state(package, PackageState::Enabled);
            let commands = apply_pkg_state_commands(
                &pkg,
                PackageState::Uninstalled,
                user,
                phone,
            );
            FallbackPlan::UninstallInstead { commands }
        },
        (PackageState::Enabled, PackageState::Disabled) => {
            let pkg = crate::sync::package_with_state(package, PackageState::Disabled);
            let uninstall = apply_pkg_state_commands(
                &pkg,
                PackageState::Uninstalled,
                user,
                phone,
            );
            let pkg_uninstalled = crate::sync::package_with_state(
                package,
                PackageState::Uninstalled,
            );
            let reinstall = apply_pkg_state_commands(
                &pkg_uninstalled,
                PackageState::Enabled,
                user,
                phone,
            );
            FallbackPlan::ReinstallAfterUninstall { uninstall, reinstall }
        },
        _ => {
            let mut message = String::from_str("No fallback available for wanted state ");
            message.append(wanted_state.debug_str());
            message.append(" and actual state ");
            message.append(actual_state.debug_str());
            FallbackPlan::NoFallback { message }
        },
    }
}

/// The command a caller must run for a plan: the first one. Positions past
/// zero are best-effort cleanup and are not part of a fallback attempt.
pub fn first_command(commands: &Vec<String>) -> (r: Result<String, String>)
    ensures
        commands@.len() == 0 ==> (r matches Err(m) && m@ == "No command available"@),
        commands@.len() > 0 ==> (r matches Ok(c) && c@ == commands@[0]@),
{
    if commands.len() == 0 {
        Result::Err(String::from_str("No command available"))
    } else {
        Result::Ok(commands[0].clone())
    }
}

/// The report of a disable-instead fallback, from the result of running its
/// command: success is reported as "disabled instead of uninstalling".
pub fn fallback_disable_outcome(exec_result: &Result<String, String>) -> (r: Result<
    String,
    String,
>)
    ensures
        (match exec_result {
            Result::Ok(_) => r matches Ok(m) && m@
                == "disabled package instead of uninstalling"@,
            Result::Err(e) => r matches Err(m) && m@ == "Failed to disable package: "@ + e@,
        }),
{
    match exec_result {
        Result::Ok(_) => Result::Ok(String::from_str("disabled package instead of uninstalling")),
        Result::Err(e) => Result::Err(
            String::from_str("Failed to disable package: ").concat(e.as_str()),
        ),
    }
}

/// The report of an uninstall-instead fallback, from the result of running
/// its command and the re-verified state: the substitute succeeds only when
/// the package is gone afterwards (reported `Uninstalled`, or absent).
pub fn fallback_uninstall_outcome(
    exec_result: &Result<String, String>,
    verified: &Option<PackageState>,
) -> (r: Result<String, String>)
    ensures
        (match exec_result {
            Result::Ok(_) => {
                if *verified matches Some(PackageState::Uninstalled) || *verified is None {
                    r matches Ok(m) && m@ == "uninstalled package instead of disabling"@
                } else {
                    r matches Err(m) && m@ == "Package still exists after uninstall attempt"@
                }
            },
            Result::Err(e) => r matches Err(m) && m@ == "Failed to uninstall: "@ + e@,
        }),
{
    match exec_result {
        Result::Ok(_) => {
            match verified {
                Option::Some(PackageState::Uninstalled) | Option::None => Result::Ok(
                    String::from_str("uninstalled package instead of disabling"),
                ),
                _ => Result::Err(
                    String::from_str("Package still exists after uninstall attempt"),
                ),
            }
        },
        Result::Err(e) => Result::Err(
            String::from_str("Failed to uninstall: ").concat(e.as_str()),
        ),
    }
}

/// The report of an uninstall-then-restore fallback, from the result of the
/// uninstall step, the restore commands, and the result of the restore step
/// (absent when no restore command was run). An empty restore plan is a
/// partial success: the package was uninstalled but cannot be reinstalled
/// on this SDK version.
pub fn fallback_reinstall_outcome(
    uninstall_result: &Result<String, String>,
    reinstall: &Vec<String>,
    reinstall_result: &Option<Result<String, String>>,
) -> (r: Result<String, String>)
    requires
        (uninstall_result matches Ok(_) && reinstall@.len() > 0) ==> (reinstall_result
            is Some),
    ensures
        (match uninstall_result {
            Result::Ok(_) => {
                if reinstall@.len() == 0 {
                    r matches Ok(m) && m@ == "uninstalled package but couldn't reinstall"@
                } else {
                    (match reinstall_result {
                        Option::Some(Result::Ok(_)) => r matches Ok(m) && m@
                            == "uninstalled and reinstalled package to enable it"@,
                        Option::Some(Result::Err(e)) => r matches Err(m) && m@
                            == "Failed to reinstall package: "@ + e@,
                        Option::None => true,
                    })
                }
            },
            Result::Err(e) => r matches Err(m) && m@
                == "Failed to uninstall for reinstall: "@ + e@,
        }),
{
    match uninstall_result {
        Result::Ok(_) => {
            if reinstall.len() == 0 {
                Result::Ok(String::from_str("uninstalled package but couldn't reinstall"))
            } else {
                match reinstall_result {
                    Option::Some(Result::Ok(_)) => Result::Ok(
                        String::from_str("uninstalled and reinstalled package to enable it"),
                    ),
                    Option::Some(Result::Err(e)) => Result::Err(
                        String::from_str("Failed to reinstall package: ").concat(e.as_str()),
                    ),
                    Option::None => Result::Err(String::from_str("No command available")),
                }
            }
        },
        Result::Err(e) => Result::Err(
            String::from_str("Failed to uninstall for reinstall: ").concat(e.as_str()),
        ),
    }
}

/// The fallback table is total: each of the nine `(wanted, actual)` pairs
/// over the three real states maps to a defined substitute action, and
/// exactly the three mismatch pairs of the table get one — every other
/// pair, including every matching pair, gets the explicit no-fallback
/// answer.
pub proof fn lemma_fallback_total(wanted: PackageState, actual: PackageState)
    requires
        wanted != PackageState::All,
        actual != PackageState::All,
    ensures
        fallback_kind(PackageState::Uninstalled, PackageState::Enabled)
            == FallbackKind::DisableInstead,
        fallback_kind(PackageState::Disabled, PackageState::Enabled)
            == FallbackKind::UninstallInstead,
        fallback_kind(PackageState::Enabled, PackageState::Disabled)
            == FallbackKind::ReinstallAfterUninstall,
        !((wanted == PackageState::Uninstalled && actual == PackageState::Enabled) || (wanted
            == PackageState::Disabled && actual == PackageState::Enabled) || (wanted
            == PackageState::Enabled && actual == PackageState::Disabled))
            ==> fallback_kind(wanted, actual) == FallbackKind::NoFallback,
{
}

} // verus!
