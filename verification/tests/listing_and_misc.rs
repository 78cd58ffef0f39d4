use uad_core::certificates::{match_certificate, CertificateState};
use uad_core::commands::{
    display_package_entry, display_package_list, get_user, DisplayConfig, PackageListContext,
};
use uad_core::filters::{ListFilter, RemovalFilter, StateFilter};
use uad_core::repl::ReplListArgs;
use uad_core::save::{backup_phone, restore_backup, PhoneBackup, UserBackup};
use uad_core::sync::fan_out_users;
use uad_core::sync::{CorePackage, Phone, User};
use uad_core::theme::Theme;
use uad_core::uad_lists::{Opposite, Package, PackageHashMap, PackageState, Removal, UadList};
use uad_core::update::{get_latest_release, SelfUpdateStatus};
use uad_core::utils::{
    fetch_packages, generate_backup_name, is_all_w_c, is_w, matches_search, string_to_theme,
    truncate_description, Date,
};

fn meta(list: UadList, description: &str, removal: Removal) -> Package {
    Package::new(list, description.to_string(), removal)
}

#[test]
fn backup_name() {
    assert_eq!(
        generate_backup_name(Date { year: 1970, month: 1, day: 1 }),
        "uninstalled_packages_19700101.csv".to_string()
    );
}

#[test]
fn backup_name_pads_each_field() {
    assert_eq!(
        generate_backup_name(Date { year: 476, month: 12, day: 31 }),
        "uninstalled_packages_04761231.csv".to_string()
    );
}

#[test]
fn word_characters() {
    assert!(is_w(b'_'));
    assert!(is_w(b'a'));
    assert!(is_w(b'Z'));
    assert!(is_w(b'0'));
    assert!(!is_w(b'!'));
    assert!(is_all_w_c(b"w1nst0n_"));
    assert!(!is_all_w_c(b"no spaces"));
    assert!(is_all_w_c(b""));
}

#[test]
fn search_is_case_insensitive_and_covers_descriptions() {
    assert!(matches_search("com.example.Bloat", "bloat", None));
    assert!(matches_search("com.example.app", "tracker", Some("A known TRACKER module")));
    assert!(!matches_search("com.example.app", "tracker", None));
    assert!(!matches_search("com.example.app", "tracker", Some("harmless")));
}

#[test]
fn descriptions_are_truncated_with_an_ellipsis() {
    assert_eq!(truncate_description("short", 80), "short");
    assert_eq!(truncate_description("abcdef", 3), "abc...");
    assert_eq!(truncate_description("abc", 3), "abc");
}

#[test]
fn theme_names_round_trip() {
    assert_eq!(string_to_theme("Dark"), Theme::Dark);
    assert_eq!(string_to_theme("Light"), Theme::Light);
    assert_eq!(string_to_theme("Lupin"), Theme::Lupin);
    assert_eq!(string_to_theme("Auto (dark)"), Theme::Auto);
    assert_eq!(string_to_theme("anything else"), Theme::Auto);
    assert_eq!(string_to_theme(Theme::Dark.name()), Theme::Dark);
}

#[test]
fn state_filters() {
    assert!(StateFilter::All.matches(PackageState::Uninstalled));
    assert!(StateFilter::Enabled.matches(PackageState::Enabled));
    assert!(!StateFilter::Enabled.matches(PackageState::Disabled));
    assert!(!StateFilter::All.is_specific());
    assert!(StateFilter::Uninstalled.is_specific());
    assert_eq!(
        StateFilter::Enabled.to_pm_flag(),
        Some(uad_core::adb::PmListPacksFlag::OnlyEnabled)
    );
    assert_eq!(
        StateFilter::All.to_pm_flag(),
        Some(uad_core::adb::PmListPacksFlag::IncludeUninstalled)
    );
}

#[test]
fn removal_and_list_filters_on_unknown_packages() {
    assert!(RemovalFilter::All.matches(None));
    assert!(RemovalFilter::Unlisted.matches(None));
    assert!(!RemovalFilter::Expert.matches(None));
    let info = meta(UadList::Google, "", Removal::Expert);
    assert!(RemovalFilter::Expert.matches(Some(&info)));
    assert!(!RemovalFilter::Recommended.matches(Some(&info)));
    assert!(RemovalFilter::Expert.is_specific());
    assert!(!RemovalFilter::All.is_specific());
    assert!(ListFilter::Google.matches(Some(&info)));
    assert!(!ListFilter::Oem.matches(Some(&info)));
    assert!(ListFilter::Unlisted.matches(None));
    assert!(!ListFilter::Carrier.matches(None));
}

#[test]
fn filter_package_combines_all_filters() {
    let ctx = PackageListContext {
        state_filter: Some(StateFilter::Enabled),
        removal_filter: Some(RemovalFilter::Recommended),
        list_filter: Some(ListFilter::Oem),
        search: Some("cast".to_string()),
    };
    let info = meta(UadList::Oem, "Screen casting service", Removal::Recommended);
    assert!(ctx.filter_package("com.example.cast", Some(&info), PackageState::Enabled));
    assert!(!ctx.filter_package("com.example.cast", Some(&info), PackageState::Disabled));
    assert!(!ctx.filter_package("com.example.cast", None, PackageState::Enabled));
    let other = meta(UadList::Google, "Screen casting service", Removal::Recommended);
    assert!(!ctx.filter_package("com.example.cast", Some(&other), PackageState::Enabled));
}

#[test]
fn display_config_hides_pinned_columns() {
    let ctx = PackageListContext {
        state_filter: Some(StateFilter::Enabled),
        removal_filter: None,
        list_filter: None,
        search: None,
    };
    let config = ctx.display_config();
    assert!(!config.show_state);
    assert!(config.show_removal);
}

#[test]
fn entry_lines_show_what_the_filters_leave_open() {
    let config = DisplayConfig { show_state: true, show_removal: true };
    let info = meta(UadList::Oem, "Vendor analytics", Removal::Recommended);
    assert_eq!(
        display_package_entry("com.example.app", Some(&info), PackageState::Enabled, &config),
        "[Recommended - Enabled] com.example.app - Vendor analytics"
    );
    assert_eq!(
        display_package_entry("com.example.app", None, PackageState::Disabled, &config),
        "[Unlisted - Disabled] com.example.app"
    );
    let narrow = DisplayConfig { show_state: false, show_removal: false };
    assert_eq!(
        display_package_entry("com.example.app", None, PackageState::Disabled, &narrow),
        "[] com.example.app"
    );
}

#[test]
fn package_listing_is_filtered_and_counted() {
    let mut lists = PackageHashMap::new();
    lists.insert(
        "com.example.keep".to_string(),
        meta(UadList::Oem, "Keep me", Removal::Unsafe),
    );
    lists.insert(
        "com.example.bloat".to_string(),
        meta(UadList::Oem, "Bloatware", Removal::Recommended),
    );
    let packages = vec![
        "com.example.keep".to_string(),
        "com.example.bloat".to_string(),
        "com.example.mystery".to_string(),
    ];
    let enabled = vec!["com.example.keep".to_string(), "com.example.bloat".to_string()];
    let disabled = vec![];
    let ctx = PackageListContext {
        state_filter: None,
        removal_filter: Some(RemovalFilter::Recommended),
        list_filter: None,
        search: None,
    };
    let lines = display_package_list(&packages, &lists, &enabled, &disabled, &ctx);
    assert_eq!(lines, vec!["[Enabled] com.example.bloat - Bloatware".to_string()]);
}

#[test]
fn fetch_packages_assembles_rows_in_listing_order() {
    let mut lists = PackageHashMap::new();
    lists.insert(
        "com.example.bloat".to_string(),
        meta(UadList::Carrier, "Carrier bloat", Removal::Recommended),
    );
    let all = vec!["com.example.bloat".to_string(), "com.example.mystery".to_string()];
    let enabled = vec!["com.example.bloat".to_string()];
    let disabled = vec!["com.example.mystery".to_string()];
    let rows = fetch_packages(&lists, &all, &enabled, &disabled);
    assert_eq!(rows.len(), 2);
    assert_eq!(rows[0].name, "com.example.bloat");
    assert_eq!(rows[0].state, PackageState::Enabled);
    assert_eq!(rows[0].description, "Carrier bloat");
    assert_eq!(rows[0].removal, Removal::Recommended);
    assert_eq!(rows[0].list, UadList::Carrier);
    assert_eq!(rows[1].name, "com.example.mystery");
    assert_eq!(rows[1].state, PackageState::Disabled);
    assert_eq!(rows[1].description, "[No description]: CONTRIBUTION WELCOMED");
    assert_eq!(rows[1].removal, Removal::Unlisted);
    assert_eq!(rows[1].list, UadList::Unlisted);
}

#[test]
fn get_user_prefers_the_device_record() {
    let dev = Phone {
        model: "Test Phone".to_string(),
        android_sdk: 26,
        user_list: vec![
            User { id: 0, index: 0, protected: false },
            User { id: 10, index: 1, protected: true },
        ],
        adb_id: "serial0".to_string(),
    };
    assert_eq!(get_user(&dev, Some(10)), User { id: 10, index: 1, protected: true });
    assert_eq!(get_user(&dev, None), User { id: 0, index: 0, protected: false });
    assert_eq!(get_user(&dev, Some(42)), User { id: 42, index: 0, protected: false });
}

#[test]
fn opposite_states() {
    assert_eq!(PackageState::Enabled.opposite(true), PackageState::Disabled);
    assert_eq!(PackageState::Enabled.opposite(false), PackageState::Uninstalled);
    assert_eq!(PackageState::Disabled.opposite(true), PackageState::Enabled);
    assert_eq!(PackageState::Uninstalled.opposite(false), PackageState::Enabled);
}

#[test]
fn display_names() {
    assert_eq!(PackageState::Uninstalled.as_str(), "Uninstalled");
    assert_eq!(PackageState::All.as_str(), "All states");
    assert_eq!(Removal::Recommended.as_str(), "Recommended");
    assert_eq!(UadList::Aosp.as_str(), "aosp");
    assert_eq!(SelfUpdateStatus::Checking.as_str(), "Checking updates...");
}

#[test]
fn backup_records_each_users_rows() {
    let users = vec![
        User { id: 0, index: 0, protected: false },
        User { id: 10, index: 1, protected: false },
    ];
    let row = CorePackage {
        name: "com.example.bloat".to_string(),
        description: String::new(),
        removal: Removal::Recommended,
        state: PackageState::Uninstalled,
        list: UadList::Oem,
    };
    let tables = vec![vec![row.clone()], vec![]];
    let backup = backup_phone(&users, "serial0".to_string(), &tables);
    assert_eq!(backup.device_id, "serial0");
    assert_eq!(backup.users.len(), 2);
    assert_eq!(backup.users[0].id, 0);
    assert_eq!(backup.users[0].packages.len(), 1);
    assert_eq!(backup.users[0].packages[0].name, "com.example.bloat");
    assert_eq!(backup.users[1].packages.len(), 0);
}

#[test]
fn restore_plans_commands_for_recorded_packages() {
    let dev = Phone {
        model: "Test Phone".to_string(),
        android_sdk: 26,
        user_list: vec![User { id: 0, index: 0, protected: false }],
        adb_id: "serial0".to_string(),
    };
    let recorded = CorePackage {
        name: "com.example.bloat".to_string(),
        description: String::new(),
        removal: Removal::Recommended,
        state: PackageState::Uninstalled,
        list: UadList::Oem,
    };
    let on_device = CorePackage { state: PackageState::Enabled, ..recorded.clone() };
    let backup = PhoneBackup {
        device_id: "serial0".to_string(),
        users: vec![UserBackup { id: 0, packages: vec![recorded] }],
    };
    let tables = vec![vec![on_device]];
    let su = User { id: 0, index: 0, protected: false };
    let result = restore_backup(&dev, &backup, &tables, su).expect("restore should plan");
    assert_eq!(result.skipped_count, 0);
    assert_eq!(result.packages.len(), 2);
    assert_eq!(result.packages[0].i_user, 0);
    assert_eq!(result.packages[0].index, 0);
    assert_eq!(
        result.packages[0].commands,
        vec!["pm uninstall --user 0 com.example.bloat".to_string()]
    );
    assert!(result.packages[1].commands.is_empty());
}

#[test]
fn restore_skips_packages_the_device_no_longer_lists() {
    let dev = Phone {
        model: "Test Phone".to_string(),
        android_sdk: 26,
        user_list: vec![User { id: 0, index: 0, protected: false }],
        adb_id: "serial0".to_string(),
    };
    let recorded = CorePackage {
        name: "com.example.gone".to_string(),
        description: String::new(),
        removal: Removal::Recommended,
        state: PackageState::Disabled,
        list: UadList::Oem,
    };
    let backup = PhoneBackup {
        device_id: "serial0".to_string(),
        users: vec![UserBackup { id: 0, packages: vec![recorded] }],
    };
    let tables = vec![vec![]];
    let su = User { id: 0, index: 0, protected: false };
    let result = restore_backup(&dev, &backup, &tables, su).expect("restore should plan");
    assert_eq!(result.skipped_count, 1);
    assert!(result.packages.is_empty());
}

#[test]
fn restore_rejects_unknown_users() {
    let dev = Phone {
        model: "Test Phone".to_string(),
        android_sdk: 26,
        user_list: vec![User { id: 0, index: 0, protected: false }],
        adb_id: "serial0".to_string(),
    };
    let backup = PhoneBackup {
        device_id: "serial0".to_string(),
        users: vec![UserBackup { id: 7, packages: vec![] }],
    };
    let tables = vec![vec![]];
    let su = User { id: 0, index: 0, protected: false };
    let result = restore_backup(&dev, &backup, &tables, su);
    assert_eq!(result.err(), Some("user 7 doesn't exist".to_string()));
}

#[test]
fn no_release_lookup_without_self_update() {
    assert_eq!(get_latest_release().map(|r| r.is_none()), Ok(true));
}

#[test]
fn certificate_notes() {
    assert_eq!(match_certificate(CertificateState::UnmodifiedCertState), "\n\nunmodified apk.");
    assert!(match_certificate(CertificateState::ModifiedCertState).contains("WARNING"));
    assert!(match_certificate(CertificateState::UnknownCertState).contains("contribution welcomed"));
}

#[test]
fn repl_list_arguments_are_parsed_in_pairs() {
    let args: Vec<String> = vec![
        "--state".to_string(),
        "Disabled".to_string(),
        "-q".to_string(),
        "tracker".to_string(),
    ];
    let parsed = ReplListArgs::parse(&args).expect("arguments should parse");
    assert_eq!(parsed.state_filter, Some(StateFilter::Disabled));
    assert_eq!(parsed.search_term, Some("tracker".to_string()));

    let missing: Vec<String> = vec!["--state".to_string()];
    assert_eq!(ReplListArgs::parse(&missing).err(), Some("--state requires a value".to_string()));

    let invalid: Vec<String> = vec!["--state".to_string(), "gone".to_string()];
    assert_eq!(ReplListArgs::parse(&invalid).err(), Some("Invalid state: gone".to_string()));

    let unknown: Vec<String> = vec!["--frobnicate".to_string()];
    assert_eq!(ReplListArgs::parse(&unknown).err(), Some("Unknown option: --frobnicate".to_string()));

    let empty: Vec<String> = vec![];
    let parsed = ReplListArgs::parse(&empty).expect("no arguments is fine");
    assert_eq!(parsed.state_filter, None);
    assert_eq!(parsed.search_term, None);
}

#[test]
fn fetch_packages_sorts_rows_by_lowercase_name() {
    let lists = PackageHashMap::new();
    let all = vec![
        "com.zeta.app".to_string(),
        "COM.Alpha.App".to_string(),
        "com.beta.app".to_string(),
    ];
    let enabled = vec!["COM.Alpha.App".to_string()];
    let disabled = vec![];
    let rows = uad_core::utils::fetch_packages(&lists, &all, &enabled, &disabled);
    let names: Vec<&str> = rows.iter().map(|r| r.name.as_str()).collect();
    assert_eq!(names, vec!["COM.Alpha.App", "com.beta.app", "com.zeta.app"]);
    assert_eq!(rows[0].state, PackageState::Enabled);
    assert_eq!(rows[1].state, PackageState::Uninstalled);
}

#[test]
fn fan_out_targets_selected_rows_and_the_initiating_user() {
    let users = vec![
        User { id: 0, index: 0, protected: false },
        User { id: 10, index: 1, protected: true },
        User { id: 12, index: 2, protected: false },
    ];
    let selected = vec![false, true, true];

    let multi = fan_out_users(&users, &selected, true, 0);
    assert_eq!(
        multi,
        vec![
            User { id: 0, index: 0, protected: false },
            User { id: 12, index: 2, protected: false },
        ]
    );

    let single = fan_out_users(&users, &selected, false, 0);
    assert_eq!(single, vec![User { id: 12, index: 2, protected: false }]);
}
