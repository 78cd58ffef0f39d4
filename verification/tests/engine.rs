use uad_core::adb_safe::{collect_adb_output, friendly_hint, AdbError as SafeAdbError};
use uad_core::sync::{
    get_android_sdk, get_device_brand, get_package_state, has_authorized_device, initial_load,
    is_protected_user, list_users_idx_prot, make_friendly_error_message, run_adb_shell_action,
    verify_package_state, AdbError,
};
use uad_core::fallback::{attempt_fallback, FallbackPlan};
use uad_core::sync::{apply_pkg_state_commands, CorePackage, Phone, User};
use uad_core::uad_lists::{PackageState, Removal, UadList};

#[test]
fn clean_output_passes_through() {
    let r = run_adb_shell_action("pm uninstall --user 0 a.b", Ok("Success".to_string()));
    assert_eq!(r.ok(), Some("Success".to_string()));
}

#[test]
fn error_bearing_success_output_is_reclassified() {
    let r = run_adb_shell_action("pm uninstall --user 0 a.b", Ok("Failure [dunno]".to_string()));
    match r {
        Err(AdbError::Generic(msg)) => {
            assert_eq!(msg, "pm uninstall --user 0 a.b -> Failure [dunno]");
        }
        _ => panic!("expected the output to be reclassified as a failure"),
    }
}

#[test]
fn not_installed_reports_are_kept_verbatim() {
    let raw = "a.b [not installed for 0]".to_string();
    let r = run_adb_shell_action("pm uninstall --user 0 a.b", Err(raw.clone()));
    match r {
        Err(AdbError::Generic(msg)) => assert_eq!(msg, raw),
        _ => panic!("expected a failure"),
    }
}

#[test]
fn vendor_restriction_gets_a_tip() {
    let msg = make_friendly_error_message("Failure [DELETE_FAILED_USER_RESTRICTED]", "pm uninstall a.b");
    assert_eq!(
        msg,
        "Cannot uninstall: This package is restricted by the device manufacturer (Samsung Knox or similar).\n\
         Error: Failure [DELETE_FAILED_USER_RESTRICTED]\n\
         Tip: Try disabling the package instead, or check device settings for Knox/security restrictions."
    );
}

#[test]
fn policy_managed_package_gets_a_tip() {
    let msg = make_friendly_error_message("Failure [DELETE_FAILED_DEVICE_POLICY_MANAGER]", "pm uninstall a.b");
    assert_eq!(
        msg,
        "Cannot modify: Package is managed by device policy (MDM/EMM).\n\
         Error: Failure [DELETE_FAILED_DEVICE_POLICY_MANAGER]\n\
         Tip: Contact your IT administrator if this is a work device."
    );
}

#[test]
fn unknown_failures_name_the_action() {
    let msg = make_friendly_error_message("something odd", "pm enable a.b");
    assert_eq!(msg, "pm enable a.b -> something odd");
}

#[test]
fn sdk_lookup_degrades_to_zero() {
    assert_eq!(get_android_sdk(Ok("26".to_string())), 26);
    assert_eq!(get_android_sdk(Ok("not a number".to_string())), 0);
    assert_eq!(get_android_sdk(Ok("300".to_string())), 0);
    assert_eq!(get_android_sdk(Err("no device".to_string())), 0);
}

#[test]
fn brand_lookup_trims_or_degrades_to_empty() {
    assert_eq!(get_device_brand(Ok(" samsung \n".to_string())), "samsung");
    assert_eq!(get_device_brand(Err("no device".to_string())), "");
}

#[test]
fn package_state_queries_are_checked_in_order() {
    let name = "com.example.app";
    let yes = Ok(vec![name.to_string(), "android".to_string()]);
    let no: Result<Vec<String>, String> = Ok(vec!["android".to_string()]);
    let err: Result<Vec<String>, String> = Err("probe failed".to_string());

    assert_eq!(get_package_state(name, &yes, &no, &yes), Some(PackageState::Enabled));
    assert_eq!(get_package_state(name, &no, &yes, &yes), Some(PackageState::Disabled));
    assert_eq!(get_package_state(name, &no, &no, &yes), Some(PackageState::Uninstalled));
    assert_eq!(get_package_state(name, &no, &no, &no), None);
    assert_eq!(get_package_state(name, &err, &no, &yes), Some(PackageState::Uninstalled));
    assert_eq!(verify_package_state(name, &no, &yes, &yes), Some(PackageState::Disabled));
}

#[test]
fn protection_probe_and_initial_load() {
    assert!(is_protected_user(&Err("cannot list".to_string())));
    assert!(!is_protected_user(&Ok(vec![])));
    assert!(initial_load(&Ok(vec![])));
    assert!(!initial_load(&Err("adb missing".to_string())));
}

#[test]
fn discovery_waits_for_an_authorized_device() {
    let unauthorized = vec![("serial0".to_string(), "unauthorized".to_string())];
    assert!(!has_authorized_device(&unauthorized));
    let mixed = vec![
        ("serial0".to_string(), "unauthorized".to_string()),
        ("serial1".to_string(), "device".to_string()),
    ];
    assert!(has_authorized_device(&mixed));
    assert!(!has_authorized_device(&vec![]));
}

#[test]
fn user_list_is_indexed_in_enumeration_order() {
    let users = list_users_idx_prot(&vec![0, 10, 150], &vec![false, true, false]);
    assert_eq!(users.len(), 3);
    assert_eq!((users[0].id, users[0].index, users[0].protected), (0, 0, false));
    assert_eq!((users[1].id, users[1].index, users[1].protected), (10, 1, true));
    assert_eq!((users[2].id, users[2].index, users[2].protected), (150, 2, false));
}

#[test]
fn nonzero_exit_prefers_the_informative_stream() {
    match collect_adb_output("out text".to_string(), String::new(), false, 1) {
        Err(SafeAdbError::NonZero { code, msg }) => {
            assert_eq!(code, 1);
            assert_eq!(msg, "out text");
        }
        _ => panic!("expected a non-zero classification"),
    }
    match collect_adb_output("ignored".to_string(), " err text ".to_string(), false, 5) {
        Err(SafeAdbError::NonZero { code, msg }) => {
            assert_eq!(code, 5);
            assert_eq!(msg, "err text");
        }
        _ => panic!("expected a non-zero classification"),
    }
    let ok = collect_adb_output("stdout".to_string(), "stderr".to_string(), true, 0);
    match ok {
        Ok(o) => {
            assert_eq!(o.stdout, "stdout");
            assert_eq!(o.stderr, "stderr");
        }
        _ => panic!("expected a success"),
    }
}

#[test]
fn hints_for_common_vendor_messages() {
    assert_eq!(
        friendly_hint("Failure [DELETE_FAILED_USER_RESTRICTED]"),
        Some("This package is protected by the vendor. Try Disable instead.")
    );
    assert_eq!(
        friendly_hint("Failure [NOT_INSTALLED_FOR_USER]"),
        Some("It's already gone for this user. Refresh the list.")
    );
    assert_eq!(
        friendly_hint("java.lang.SecurityException: Shell does not have permission to access user 10"),
        Some("Wrong user/profile. Use the primary user or a permitted profile.")
    );
    assert_eq!(friendly_hint("some other failure"), None);
}

#[test]
fn modern_uninstall_runs_one_command_and_verifies() {
    let device = Phone {
        model: "Test Phone".to_string(),
        android_sdk: 26,
        user_list: vec![User { id: 0, index: 0, protected: false }],
        adb_id: "serial0".to_string(),
    };
    let user = User { id: 0, index: 0, protected: false };
    let pkg = CorePackage {
        name: "com.example.bloat".to_string(),
        description: String::new(),
        removal: Removal::Recommended,
        state: PackageState::Enabled,
        list: UadList::Oem,
    };

    let plan = apply_pkg_state_commands(&pkg, PackageState::Uninstalled, user, &device);
    assert_eq!(plan, vec!["pm uninstall --user 0 com.example.bloat".to_string()]);

    // The device then reports the package uninstalled: verification agrees
    // with the wanted state, so no fallback applies for the matching pair.
    let enabled: Result<Vec<String>, String> = Ok(vec![]);
    let disabled: Result<Vec<String>, String> = Ok(vec![]);
    let all: Result<Vec<String>, String> = Ok(vec!["com.example.bloat".to_string()]);
    let actual = get_package_state("com.example.bloat", &enabled, &disabled, &all);
    assert_eq!(actual, Some(PackageState::Uninstalled));
    let plan = attempt_fallback(
        &pkg,
        PackageState::Uninstalled,
        PackageState::Uninstalled,
        user,
        &device,
    );
    assert!(matches!(plan, FallbackPlan::NoFallback { .. }));
}
