use credstore::errors::AccessError;
use credstore::manifest::{load_manifest, manifest_file_path, trim_quotes, ProfileEntry,
    ProfileManifest};
use credstore::orchestrate::{install_path, select_browser};
use credstore::registry::{find_browser, list_known_browsers, list_known_browsers_posix,
    resolve_root, EnvRoots, RootKind};

fn entry(dir: &str, name: &str) -> ProfileEntry {
    ProfileEntry { directory_name: dir.to_string(), display_name: name.to_string() }
}

#[test]
fn registry_lists_seven_products() {
    let browsers = list_known_browsers();
    let names: Vec<&str> = browsers.iter().map(|b| b.name.as_str()).collect();
    assert_eq!(
        names,
        vec![
            "Brave Browser",
            "Chromium",
            "Google Chrome",
            "Microsoft Edge",
            "Opera",
            "Opera GX",
            "Vivaldi"
        ]
    );
}

#[test]
fn only_the_gx_variant_stores_credentials_at_the_root() {
    for b in list_known_browsers() {
        if b.name == "Opera GX" {
            assert!(!b.stores_credentials_per_profile);
        } else {
            assert!(b.stores_credentials_per_profile);
        }
    }
}

#[test]
fn posix_registry_has_one_dot_directory_product() {
    let browsers = list_known_browsers_posix();
    assert_eq!(browsers.len(), 1);
    assert_eq!(browsers[0].name, "Chromium");
    assert_eq!(browsers[0].relative_path, ".config/chromium");
    assert!(matches!(browsers[0].root_kind, RootKind::Home));
}

#[test]
fn find_browser_returns_first_match_or_none() {
    let browsers = list_known_browsers();
    assert_eq!(find_browser(&browsers, "Opera"), Some(4));
    assert_eq!(find_browser(&browsers, "Netscape"), None);
}

#[test]
fn unknown_browser_fails_before_any_filesystem_access() {
    // The lookup is pure registry data: the failure needs no environment
    // and no disk.
    let browsers = list_known_browsers();
    let r = select_browser(&browsers, "Netscape");
    match r {
        Err(e) => {
            assert!(matches!(e, AccessError::BrowserNotFound { .. }));
            assert_eq!(e.message(), "browser not found: Netscape");
        },
        Ok(_) => panic!("an unknown name must not resolve"),
    }
}

#[test]
fn select_browser_finds_a_known_product() {
    let browsers = list_known_browsers();
    let d = select_browser(&browsers, "Opera GX").unwrap();
    assert_eq!(d.name, "Opera GX");
    assert_eq!(d.relative_path, "Opera Software/Opera GX Stable");
    assert!(!d.stores_credentials_per_profile);
}

#[test]
fn resolve_root_picks_the_declared_kind() {
    let env = EnvRoots {
        local_app_data: Some("C:/Users/u/AppData/Local".to_string()),
        roaming_app_data: Some("C:/Users/u/AppData/Roaming".to_string()),
        home: None,
    };
    let browsers = list_known_browsers();
    let brave = resolve_root(&browsers[0], &env).unwrap();
    assert_eq!(brave.root, "C:/Users/u/AppData/Local");
    assert_eq!(brave.name, "Brave Browser");
    assert_eq!(brave.path, "BraveSoftware/Brave-Browser/User Data");
    let opera = resolve_root(&browsers[4], &env).unwrap();
    assert_eq!(opera.root, "C:/Users/u/AppData/Roaming");
}

#[test]
fn absent_environment_variable_is_fatal_and_named() {
    let env = EnvRoots { local_app_data: None, roaming_app_data: None, home: None };
    let browsers = list_known_browsers();
    let err = resolve_root(&browsers[0], &env).unwrap_err();
    assert_eq!(err.message(), "environment variable unavailable: LOCALAPPDATA");
    let err = resolve_root(&browsers[4], &env).unwrap_err();
    assert_eq!(err.message(), "environment variable unavailable: APPDATA");
    let posix = list_known_browsers_posix();
    let err = resolve_root(&posix[0], &env).unwrap_err();
    assert_eq!(err.message(), "environment variable unavailable: HOME");
}

#[test]
fn paths_join_root_product_and_fixed_names() {
    let env = EnvRoots {
        local_app_data: Some("/local".to_string()),
        roaming_app_data: None,
        home: None,
    };
    let browsers = list_known_browsers();
    let b = resolve_root(&browsers[1], &env).unwrap();
    let install = install_path(&b, "/");
    assert_eq!(install, "/local/Chromium/User Data");
    assert_eq!(manifest_file_path(&install, "/"), "/local/Chromium/User Data/Local State");
}

#[test]
fn trim_quotes_removes_all_surrounding_quotes() {
    assert_eq!(trim_quotes("Work"), "Work");
    assert_eq!(trim_quotes("\"Work\""), "Work");
    assert_eq!(trim_quotes("\"\"Work\"\""), "Work");
    assert_eq!(trim_quotes("\"Work"), "Work");
    assert_eq!(trim_quotes("Wo\"rk"), "Wo\"rk");
    assert_eq!(trim_quotes("\"\""), "");
    assert_eq!(trim_quotes(""), "");
}

#[test]
fn scenario_display_name_resolves_plain_and_quoted() {
    let json = br#"{"profile":{"info_cache":{"Profile 1":{"name":"Work"}}}}"#.to_vec();
    let manifest = load_manifest(&Some(json), "Local State").unwrap();
    let plain = manifest.find_directory_for_display_name("Work").unwrap();
    assert_eq!(plain.directory_name, "Profile 1");
    assert_eq!(plain.display_name, "Work");
    let quoted = manifest.find_directory_for_display_name("\"Work\"").unwrap();
    assert_eq!(quoted.directory_name, "Profile 1");
}

#[test]
fn repeated_resolution_gives_the_same_identity() {
    let manifest = ProfileManifest {
        entries: vec![entry("Default", "Personal"), entry("Profile 1", "Work")],
    };
    let a = manifest.find_directory_for_display_name("Work").unwrap();
    let b = manifest.find_directory_for_display_name("Work").unwrap();
    assert_eq!(a.directory_name, b.directory_name);
    assert_eq!(a.display_name, b.display_name);
}

#[test]
fn duplicate_display_names_resolve_to_the_first_entry() {
    let manifest = ProfileManifest {
        entries: vec![entry("Profile 2", "Work"), entry("Profile 9", "Work")],
    };
    let p = manifest.find_directory_for_display_name("Work").unwrap();
    assert_eq!(p.directory_name, "Profile 2");
}

#[test]
fn unknown_display_name_is_profile_not_found() {
    let manifest = ProfileManifest { entries: vec![entry("Default", "Personal")] };
    let e = manifest.find_directory_for_display_name("\"Work\"").unwrap_err();
    assert!(matches!(e, AccessError::ProfileNotFound { .. }));
    assert_eq!(e.message(), "profile not found: Work");
}

#[test]
fn absent_manifest_is_the_not_installed_case() {
    let e = load_manifest(&None, "/local/Chromium/User Data/Local State").unwrap_err();
    assert!(matches!(e, AccessError::ManifestNotFound { .. }));
    assert!(e.is_expected_absence());
}

#[test]
fn malformed_manifest_is_fatal_for_that_browser() {
    let e = load_manifest(&Some(b"not json at all".to_vec()), "Local State").unwrap_err();
    assert!(matches!(e, AccessError::ManifestMalformed { .. }));
    assert!(!e.is_expected_absence());
    let e = load_manifest(&Some(br#"{"profile":{}}"#.to_vec()), "Local State").unwrap_err();
    assert!(matches!(e, AccessError::ManifestMalformed { .. }));
}

#[test]
fn manifest_entries_without_a_name_are_skipped() {
    let json =
        br#"{"profile":{"info_cache":{"Profile 1":{"name":"Work"},"System Profile":{}}}}"#.to_vec();
    let manifest = load_manifest(&Some(json), "Local State").unwrap();
    assert_eq!(manifest.entries.len(), 1);
    assert_eq!(manifest.entries[0].directory_name, "Profile 1");
}

#[test]
fn an_empty_manifest_lists_nothing_and_resolves_nothing() {
    let json = br#"{"profile":{"info_cache":{}}}"#.to_vec();
    let manifest = load_manifest(&Some(json), "Local State").unwrap();
    assert_eq!(manifest.list_all_profiles().len(), 0);
    let e = manifest.find_directory_for_display_name("Work").unwrap_err();
    assert!(matches!(e, AccessError::ProfileNotFound { .. }));
}

#[test]
fn list_all_profiles_keeps_manifest_order() {
    let manifest = ProfileManifest {
        entries: vec![entry("Default", "Personal"), entry("Profile 1", "Work")],
    };
    let all = manifest.list_all_profiles();
    assert_eq!(all.len(), 2);
    assert_eq!(all[0].directory_name, "Default");
    assert_eq!(all[0].display_name, "Personal");
    assert_eq!(all[1].directory_name, "Profile 1");
    assert_eq!(all[1].display_name, "Work");
}

#[test]
fn expected_absence_covers_exactly_the_two_skip_classes() {
    let missing_file = AccessError::CredentialFileMissing { path: "p".to_string() };
    assert!(missing_file.is_expected_absence());
    assert!(!AccessError::EnvironmentUnavailable { variable: "HOME".to_string() }
        .is_expected_absence());
    assert!(!AccessError::ProfileNotFound { profile: "Work".to_string() }.is_expected_absence());
    assert!(!AccessError::QueryFailed { detail: "d".to_string() }.is_expected_absence());
    assert!(!AccessError::SnapshotCopyFailed { detail: "d".to_string() }.is_expected_absence());
    assert!(
        !AccessError::WriteBackFailed { attempts: 5, detail: "d".to_string() }
            .is_expected_absence()
    );
}

#[test]
fn error_messages_carry_their_context() {
    assert_eq!(
        AccessError::CredentialFileMissing { path: "/x/Login Data".to_string() }.message(),
        "credential file missing: /x/Login Data"
    );
    assert_eq!(
        AccessError::QueryFailed { detail: "no such table: logins".to_string() }.message(),
        "query failed: no such table: logins"
    );
    assert_eq!(
        AccessError::WriteBackFailed { attempts: 5, detail: "locked".to_string() }.message(),
        "write-back failed after retries: locked"
    );
    assert_eq!(
        AccessError::SnapshotCopyFailed { detail: "gone".to_string() }.message(),
        "snapshot copy failed: gone"
    );
}
