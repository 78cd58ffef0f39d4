use uad_core::sync::{
    apply_pkg_state_commands, plan_apply, request_builder, supports_multi_user, user_flag,
    ApplyDecision, CorePackage, Phone, User,
};
use uad_core::uad_lists::{PackageState, Removal, UadList};

fn phone(sdk: u8) -> Phone {
    Phone {
        model: "Test Phone".to_string(),
        android_sdk: sdk,
        user_list: vec![User { id: 0, index: 0, protected: false }],
        adb_id: "serial0".to_string(),
    }
}

fn package(name: &str, state: PackageState) -> CorePackage {
    CorePackage {
        name: name.to_string(),
        description: String::new(),
        removal: Removal::Recommended,
        state,
        list: UadList::Oem,
    }
}

fn user0() -> User {
    User { id: 0, index: 0, protected: false }
}

#[test]
fn plan_is_empty_when_already_in_wanted_state() {
    for state in [
        PackageState::Enabled,
        PackageState::Disabled,
        PackageState::Uninstalled,
    ] {
        let p = package("com.example.app", state);
        let commands = apply_pkg_state_commands(&p, state, user0(), &phone(26));
        assert!(commands.is_empty());
    }
}

#[test]
fn uninstall_enabled_package_on_modern_device() {
    let p = package("com.example.bloat", PackageState::Enabled);
    let commands = apply_pkg_state_commands(&p, PackageState::Uninstalled, user0(), &phone(26));
    assert_eq!(commands, vec!["pm uninstall --user 0 com.example.bloat".to_string()]);
}

#[test]
fn disable_is_unsupported_below_sdk_23() {
    let p = package("com.example.app", PackageState::Enabled);
    let commands = apply_pkg_state_commands(&p, PackageState::Disabled, user0(), &phone(21));
    assert!(commands.is_empty());
    let decision = plan_apply(&p, PackageState::Disabled, user0(), &phone(21));
    assert!(matches!(decision, ApplyDecision::Unsupported));
}

#[test]
fn disable_on_modern_device_plans_stop_and_clear_cleanup() {
    let p = package("com.example.app", PackageState::Enabled);
    let commands = apply_pkg_state_commands(&p, PackageState::Disabled, user0(), &phone(26));
    assert_eq!(
        commands,
        vec![
            "pm disable-user --user 0 com.example.app".to_string(),
            "am force-stop --user 0 com.example.app".to_string(),
            "pm clear --user 0 com.example.app".to_string(),
        ]
    );
}

#[test]
fn restore_from_uninstalled_is_signalled_unsupported_below_sdk_19() {
    let p = package("com.example.app", PackageState::Uninstalled);
    let commands = apply_pkg_state_commands(&p, PackageState::Enabled, user0(), &phone(18));
    assert!(commands.is_empty());
    let decision = plan_apply(&p, PackageState::Enabled, user0(), &phone(18));
    assert!(matches!(decision, ApplyDecision::Unsupported));
}

#[test]
fn restore_uses_unblock_and_clear_on_kitkat() {
    let p = package("com.example.app", PackageState::Uninstalled);
    let commands = apply_pkg_state_commands(&p, PackageState::Enabled, user0(), &phone(19));
    assert_eq!(
        commands,
        vec![
            "pm unblock com.example.app".to_string(),
            "pm clear com.example.app".to_string(),
        ]
    );
}

#[test]
fn uninstall_uses_hide_and_clear_on_lollipop() {
    let p = package("com.example.app", PackageState::Enabled);
    let commands = apply_pkg_state_commands(&p, PackageState::Uninstalled, user0(), &phone(22));
    assert_eq!(
        commands,
        vec![
            "pm hide --user 0 com.example.app".to_string(),
            "pm clear --user 0 com.example.app".to_string(),
        ]
    );
}

#[test]
fn no_user_flag_without_multi_user_support() {
    let p = package("com.example.app", PackageState::Enabled);
    let dev = phone(18);
    assert!(!supports_multi_user(&dev));
    let commands = apply_pkg_state_commands(&p, PackageState::Uninstalled, user0(), &dev);
    assert_eq!(
        commands,
        vec![
            "pm block com.example.app".to_string(),
            "pm clear com.example.app".to_string(),
        ]
    );
}

#[test]
fn planner_is_deterministic_and_order_stable() {
    let p = package("com.example.app", PackageState::Enabled);
    let first = apply_pkg_state_commands(&p, PackageState::Disabled, user0(), &phone(30));
    let second = apply_pkg_state_commands(&p, PackageState::Disabled, user0(), &phone(30));
    assert_eq!(first, second);
}

#[test]
fn requesting_the_current_state_is_a_no_op() {
    let p = package("com.example.app", PackageState::Disabled);
    let decision = plan_apply(&p, PackageState::Disabled, user0(), &phone(26));
    assert!(matches!(decision, ApplyDecision::NoOp));
}

#[test]
fn user_flag_renders_the_id_or_nothing() {
    assert_eq!(user_flag(None), String::new());
    assert_eq!(user_flag(Some(User { id: 10, index: 1, protected: false })), " --user 10");
    assert_eq!(user_flag(Some(User { id: 65535, index: 0, protected: false })), " --user 65535");
}

#[test]
fn request_builder_attaches_flag_and_package() {
    let commands = vec!["pm enable".to_string(), "pm clear".to_string()];
    let built = request_builder(
        &commands,
        "org.example",
        Some(User { id: 12, index: 0, protected: false }),
    );
    assert_eq!(
        built,
        vec![
            "pm enable --user 12 org.example".to_string(),
            "pm clear --user 12 org.example".to_string(),
        ]
    );
}

#[test]
fn round_trip_plans_on_modern_device() {
    let enabled = package("com.example.keep", PackageState::Enabled);
    let dev = phone(23);
    let away = apply_pkg_state_commands(&enabled, PackageState::Uninstalled, user0(), &dev);
    assert_eq!(away, vec!["pm uninstall --user 0 com.example.keep".to_string()]);
    let uninstalled = package("com.example.keep", PackageState::Uninstalled);
    let back = apply_pkg_state_commands(&uninstalled, PackageState::Enabled, user0(), &dev);
    assert_eq!(
        back,
        vec!["cmd package install-existing --user 0 com.example.keep".to_string()]
    );
}
