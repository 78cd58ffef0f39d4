use uad_core::cross_user::{
    capture_cross_user_states, check_cross_user_package_existence, detect_cross_user_behavior,
};
use uad_core::sync::{Phone, User};
use uad_core::uad_lists::PackageState;

fn device_with_users(users: Vec<User>) -> Phone {
    Phone {
        model: "Test Phone".to_string(),
        android_sdk: 26,
        user_list: users,
        adb_id: "serial0".to_string(),
    }
}

fn two_user_device() -> Phone {
    device_with_users(vec![
        User { id: 0, index: 0, protected: false },
        User { id: 10, index: 1, protected: false },
    ])
}

#[test]
fn single_user_device_never_notifies() {
    let dev = device_with_users(vec![User { id: 0, index: 0, protected: false }]);
    let before = vec![(10u16, PackageState::Enabled)];
    let after = vec![];
    let note = detect_cross_user_behavior(
        0,
        PackageState::Uninstalled,
        PackageState::Uninstalled,
        &dev,
        &before,
        &after,
    );
    assert_eq!(note, None);
}

#[test]
fn failed_operation_never_notifies() {
    let note = detect_cross_user_behavior(
        0,
        PackageState::Uninstalled,
        PackageState::Enabled,
        &two_user_device(),
        &vec![(10, PackageState::Enabled)],
        &vec![(10, PackageState::Enabled)],
    );
    assert_eq!(note, None);
}

#[test]
fn cross_user_uninstall_names_the_affected_user() {
    let note = detect_cross_user_behavior(
        0,
        PackageState::Uninstalled,
        PackageState::Uninstalled,
        &two_user_device(),
        &vec![(10, PackageState::Enabled)],
        &vec![],
    );
    assert_eq!(
        note,
        Some(
            "Detected cross-user uninstall: package was also uninstalled from user 10 \
             after uninstalling from user 0"
                .to_string()
        )
    );
}

#[test]
fn cross_user_restoration_after_uninstall_lists_surviving_users() {
    let note = detect_cross_user_behavior(
        0,
        PackageState::Uninstalled,
        PackageState::Uninstalled,
        &two_user_device(),
        &vec![],
        &vec![(10, PackageState::Enabled)],
    );
    assert_eq!(
        note,
        Some(
            "Detected cross-user restoration: package exists on user 10 (Enabled) \
             after uninstalling from user 0"
                .to_string()
        )
    );
}

#[test]
fn cross_user_restoration_after_enable_flags_new_appearances() {
    let note = detect_cross_user_behavior(
        0,
        PackageState::Enabled,
        PackageState::Enabled,
        &two_user_device(),
        &vec![(10, PackageState::Uninstalled)],
        &vec![(10, PackageState::Enabled)],
    );
    assert_eq!(
        note,
        Some(
            "Detected cross-user restoration: package exists on user 10 (Enabled) \
             after enabling from user 0"
                .to_string()
        )
    );
}

#[test]
fn no_notification_when_other_users_already_had_the_package() {
    let note = detect_cross_user_behavior(
        0,
        PackageState::Disabled,
        PackageState::Disabled,
        &two_user_device(),
        &vec![(10, PackageState::Enabled)],
        &vec![(10, PackageState::Enabled)],
    );
    assert_eq!(note, None);
}

#[test]
fn capture_keeps_every_reported_state_of_other_users() {
    let dev = device_with_users(vec![
        User { id: 0, index: 0, protected: false },
        User { id: 10, index: 1, protected: false },
        User { id: 11, index: 2, protected: true },
        User { id: 12, index: 3, protected: false },
    ]);
    let reports = vec![
        Some(PackageState::Enabled),
        Some(PackageState::Uninstalled),
        Some(PackageState::Enabled),
        None,
    ];
    let snapshot = capture_cross_user_states(0, &dev, &reports);
    assert_eq!(snapshot, vec![(10, PackageState::Uninstalled)]);
}

#[test]
fn existence_check_drops_uninstalled_entries() {
    let dev = two_user_device();
    let reports = vec![Some(PackageState::Disabled), Some(PackageState::Uninstalled)];
    let snapshot = check_cross_user_package_existence(10, &dev, &reports);
    assert_eq!(snapshot, vec![(0, PackageState::Disabled)]);
}
