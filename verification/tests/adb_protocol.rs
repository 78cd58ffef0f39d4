use uad_core::adb::{is_pkg_component, is_version_triple, to_trimmed_utf8, PackageId, PmListPacksFlag, UserInfo};

#[test]
fn invalid_pack_ids() {
    for p_id in [
        "",
        "   ",
        ".",
        "nodots",
        "com..example",
        "net.hello.",
        "org.0example",
        "org._foobar",
        "the.🎂.is.a.lie",
        "EXCLAMATION!!!!",
    ] {
        assert_eq!(PackageId::new(p_id.into()), None);
    }
}

#[test]
fn valid_pack_ids() {
    for p_id in [
        "A.a",
        "x.X",
        "org.example",
        "net.hello",
        "uwu.owo",
        "Am0Gu5.Zuz",
        "net.net.net.net.net.net.net.net.net.net.net",
        "com.github.w1nst0n",
        "this_.String_.is_.not_.real_",
    ] {
        assert_ne!(PackageId::new(p_id.into()), None);
    }
}

#[test]
fn version_triples() {
    assert!(is_version_triple("1.0.41"));
    assert!(is_version_triple("34.0.5"));
    assert!(!is_version_triple("34.0"));
    assert!(!is_version_triple("34.0.5.1"));
    assert!(!is_version_triple("34.0.x"));
}

#[test]
fn pkg_components() {
    assert!(is_pkg_component(b"example"));
    assert!(is_pkg_component(b"Am0Gu5"));
    assert!(is_pkg_component(b"a"));
    assert!(!is_pkg_component(b""));
    assert!(!is_pkg_component(b"0example"));
    assert!(!is_pkg_component(b"_foobar"));
    assert!(!is_pkg_component(b"ex!ample"));
}

#[test]
fn trimmed_decoding() {
    assert_eq!(to_trimmed_utf8(b"package:android \r\n".to_vec()), Some("package:android".to_string()));
    assert_eq!(to_trimmed_utf8(b"".to_vec()), Some(String::new()));
    assert_eq!(to_trimmed_utf8(vec![0xff, 0xfe]), None);
}

#[test]
fn listing_flags() {
    assert_eq!(PmListPacksFlag::IncludeUninstalled.to_str(), "-u");
    assert_eq!(PmListPacksFlag::OnlyEnabled.to_str(), "-e");
    assert_eq!(PmListPacksFlag::OnlyDisabled.to_str(), "-d");
}

#[test]
fn user_info_id() {
    let info = UserInfo { id: 150 };
    assert_eq!(info.get_id(), 150);
}

#[test]
fn package_listing_lines_lose_their_marker() {
    let out = "package:com.example.a\npackage:android\nweird line";
    assert_eq!(
        uad_core::adb::parse_package_list(out),
        vec!["com.example.a".to_string(), "android".to_string(), "weird line".to_string()]
    );
    assert_eq!(uad_core::adb::parse_package_list(""), Vec::<String>::new());
}

#[test]
fn device_listing_skips_the_header_and_tolerates_odd_lines() {
    let out = "List of devices attached\nserial0\tdevice\nserial1\tunauthorized\nnoise";
    assert_eq!(
        uad_core::adb::parse_device_list(out),
        vec![
            ("serial0".to_string(), "device".to_string()),
            ("serial1".to_string(), "unauthorized".to_string()),
        ]
    );
    assert_eq!(uad_core::adb::parse_device_list(""), Vec::<(String, String)>::new());
}

#[test]
fn user_listing_yields_the_numeric_ids() {
    let out = "Users:\n\tUserInfo{0:Owner:c13} running\n\tUserInfo{10:Work profile:1030}\nnoise";
    let users = uad_core::adb::parse_user_list(out);
    let ids: Vec<u16> = users.iter().map(|u| u.get_id()).collect();
    assert_eq!(ids, vec![0, 10]);
}

#[test]
fn failure_text_prefers_standard_output() {
    assert_eq!(
        uad_core::adb::pick_error_output("Failure [x]".to_string(), "ignored".to_string()),
        "Failure [x]"
    );
    assert_eq!(
        uad_core::adb::pick_error_output(String::new(), "err".to_string()),
        "err"
    );
}
