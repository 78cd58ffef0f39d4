use uad_core::fallback::{
    attempt_fallback, fallback_disable_outcome, fallback_reinstall_outcome,
    fallback_uninstall_outcome, first_command, FallbackPlan,
};
use uad_core::sync::{CorePackage, Phone, User};
use uad_core::uad_lists::{PackageState, Removal, UadList};

fn device(sdk: u8) -> Phone {
    Phone {
        model: "Test Phone".to_string(),
        android_sdk: sdk,
        user_list: vec![User { id: 0, index: 0, protected: false }],
        adb_id: "serial0".to_string(),
    }
}

fn row(name: &str, state: PackageState) -> CorePackage {
    CorePackage {
        name: name.to_string(),
        description: String::new(),
        removal: Removal::Advanced,
        state,
        list: UadList::Oem,
    }
}

fn target_user() -> User {
    User { id: 0, index: 0, protected: false }
}

#[test]
fn every_state_pair_gets_an_answer() {
    let states = [
        PackageState::Enabled,
        PackageState::Disabled,
        PackageState::Uninstalled,
    ];
    let p = row("com.example.app", PackageState::Enabled);
    for wanted in states {
        for actual in states {
            let plan = attempt_fallback(&p, wanted, actual, target_user(), &device(26));
            let substitute = (wanted == PackageState::Uninstalled
                && actual == PackageState::Enabled)
                || (wanted == PackageState::Disabled && actual == PackageState::Enabled)
                || (wanted == PackageState::Enabled && actual == PackageState::Disabled);
            if substitute {
                assert!(!matches!(plan, FallbackPlan::NoFallback { .. }));
            } else {
                assert!(matches!(plan, FallbackPlan::NoFallback { .. }));
            }
        }
    }
}

#[test]
fn reinstalled_package_is_disabled_instead() {
    let p = row("com.example.app", PackageState::Enabled);
    let plan = attempt_fallback(
        &p,
        PackageState::Uninstalled,
        PackageState::Enabled,
        target_user(),
        &device(26),
    );
    match plan {
        FallbackPlan::DisableInstead { commands } => {
            assert_eq!(commands[0], "pm disable-user --user 0 com.example.app");
        }
        _ => panic!("expected a disable-instead plan"),
    }
}

#[test]
fn reenabled_package_is_uninstalled_instead() {
    let p = row("com.example.app", PackageState::Disabled);
    let plan = attempt_fallback(
        &p,
        PackageState::Disabled,
        PackageState::Enabled,
        target_user(),
        &device(26),
    );
    match plan {
        FallbackPlan::UninstallInstead { commands } => {
            assert_eq!(commands[0], "pm uninstall --user 0 com.example.app");
        }
        _ => panic!("expected an uninstall-instead plan"),
    }
}

#[test]
fn stuck_disabled_package_is_uninstalled_then_restored() {
    let p = row("com.example.app", PackageState::Enabled);
    let plan = attempt_fallback(
        &p,
        PackageState::Enabled,
        PackageState::Disabled,
        target_user(),
        &device(26),
    );
    match plan {
        FallbackPlan::ReinstallAfterUninstall { uninstall, reinstall } => {
            assert_eq!(uninstall[0], "pm uninstall --user 0 com.example.app");
            assert_eq!(reinstall[0], "cmd package install-existing --user 0 com.example.app");
        }
        _ => panic!("expected an uninstall-then-restore plan"),
    }
}

#[test]
fn matching_states_have_no_fallback_message() {
    let p = row("com.example.app", PackageState::Enabled);
    let plan = attempt_fallback(
        &p,
        PackageState::Enabled,
        PackageState::Uninstalled,
        target_user(),
        &device(26),
    );
    match plan {
        FallbackPlan::NoFallback { message } => {
            assert_eq!(
                message,
                "No fallback available for wanted state Enabled and actual state Uninstalled"
            );
        }
        _ => panic!("expected no fallback"),
    }
}

#[test]
fn first_command_of_an_empty_plan_is_an_error() {
    assert_eq!(first_command(&vec![]), Err("No command available".to_string()));
    assert_eq!(
        first_command(&vec!["pm enable a".to_string(), "pm clear a".to_string()]),
        Ok("pm enable a".to_string())
    );
}

#[test]
fn disable_outcome_messages() {
    assert_eq!(
        fallback_disable_outcome(&Ok(String::new())),
        Ok("disabled package instead of uninstalling".to_string())
    );
    assert_eq!(
        fallback_disable_outcome(&Err("denied".to_string())),
        Err("Failed to disable package: denied".to_string())
    );
}

#[test]
fn uninstall_outcome_checks_the_verified_state() {
    let ok = Ok(String::new());
    assert_eq!(
        fallback_uninstall_outcome(&ok, &Some(PackageState::Uninstalled)),
        Ok("uninstalled package instead of disabling".to_string())
    );
    assert_eq!(
        fallback_uninstall_outcome(&ok, &None),
        Ok("uninstalled package instead of disabling".to_string())
    );
    assert_eq!(
        fallback_uninstall_outcome(&ok, &Some(PackageState::Enabled)),
        Err("Package still exists after uninstall attempt".to_string())
    );
    assert_eq!(
        fallback_uninstall_outcome(&Err("nope".to_string()), &None),
        Err("Failed to uninstall: nope".to_string())
    );
}

#[test]
fn reinstall_outcome_reports_partial_success_without_restore_commands() {
    let ok = Ok(String::new());
    assert_eq!(
        fallback_reinstall_outcome(&ok, &vec![], &None),
        Ok("uninstalled package but couldn't reinstall".to_string())
    );
    let restore = vec!["cmd package install-existing a".to_string()];
    assert_eq!(
        fallback_reinstall_outcome(&ok, &restore, &Some(Ok(String::new()))),
        Ok("uninstalled and reinstalled package to enable it".to_string())
    );
    assert_eq!(
        fallback_reinstall_outcome(&ok, &restore, &Some(Err("rate limited".to_string()))),
        Err("Failed to reinstall package: rate limited".to_string())
    );
    assert_eq!(
        fallback_reinstall_outcome(&Err("boom".to_string()), &restore, &None),
        Err("Failed to uninstall for reinstall: boom".to_string())
    );
}
