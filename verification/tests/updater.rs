use openlid::helper::PROD_REQUIREMENT;
use openlid::install_detect::{classify, InstallMethod, APP_PATH};
use openlid::installer::{
    installer_log_path, installer_script_path, render_installer_script, verify_sha256,
};
use openlid::release::{
    current_version, is_newer_than_current, parse_digest, pick_dmg_asset, strip_v_prefix,
    AssetInfo, ReleaseError, CURRENT_VERSION,
};
use sha2::Digest;

#[test]
fn classify_intel_homebrew_caskroom_is_homebrew() {
    let p = "/usr/local/Caskroom/openlid/2.0.0/OpenLid.app";
    assert_eq!(classify(p), InstallMethod::Homebrew);
}

#[test]
fn classify_arm_homebrew_caskroom_is_homebrew() {
    let p = "/opt/homebrew/Caskroom/openlid/2.0.0/OpenLid.app";
    assert_eq!(classify(p), InstallMethod::Homebrew);
}

#[test]
fn classify_applications_root_is_manual() {
    let p = "/Applications/OpenLid.app";
    assert_eq!(classify(p), InstallMethod::Manual);
}

#[test]
fn classify_dev_target_path_is_dev() {
    let p = "/Users/dev/code/openlid/target/bundle/OpenLid.app";
    match classify(p) {
        InstallMethod::Dev { path } => assert_eq!(path, p),
        other => panic!("expected Dev, got {other:?}"),
    }
}

#[test]
fn classify_non_caskroom_but_homebrew_prefix_is_not_homebrew() {
    let p = "/usr/local/share/something/OpenLid.app";
    assert!(!matches!(classify(p), InstallMethod::Homebrew));
}

#[test]
fn classify_application_support_path_is_not_misclassified() {
    let p = "/Users/x/Library/Application Support/io.openlid.app";
    assert!(!matches!(classify(p), InstallMethod::Manual));
}

#[test]
fn classify_uses_path_equality_for_the_applications_bundle() {
    // A trailing separator names the same path.
    assert_eq!(classify("/Applications/OpenLid.app/"), InstallMethod::Manual);
    assert_eq!(classify(APP_PATH), InstallMethod::Manual);
    assert!(matches!(classify("/Applications/OpenLid.app.bak"), InstallMethod::Dev { .. }));
}

#[test]
fn verify_sha256_accepts_matching_hash() {
    let content = b"openlid update test\n";
    let expected = format!("{:x}", sha2::Sha256::digest(content));
    verify_sha256(content, &expected).expect("known hash should match");
}

#[test]
fn verify_sha256_rejects_mismatched_hash() {
    let err = verify_sha256(b"some bytes", "deadbeef").unwrap_err();
    assert_eq!(err.expected, "deadbeef");
    assert_eq!(err.actual, format!("{:x}", sha2::Sha256::digest(b"some bytes")));
}

#[test]
fn verify_sha256_is_case_insensitive() {
    let lower = format!("{:x}", sha2::Sha256::digest(b"hi"));
    let upper = lower.to_uppercase();
    verify_sha256(b"hi", &upper).expect("uppercase hash should match");
}

#[test]
fn verify_sha256_of_empty_input_is_the_known_digest() {
    verify_sha256(
        b"",
        "e3b0c44298fc1c149afbf4c8996fb92427ae41e4649b934ca495991b7852b855",
    )
    .expect("digest of the empty input");
    assert!(verify_sha256(b"", "").is_err());
}

#[test]
fn render_installer_script_substitutes_all_placeholders() {
    let out = render_installer_script(12345, "/tmp/OpenLid-v2.1.0.dmg", "/Applications/OpenLid.app");
    assert!(out.contains("PARENT_PID=\"12345\""));
    assert!(out.contains("DMG_PATH=\"/tmp/OpenLid-v2.1.0.dmg\""));
    assert!(out.contains("APP_PATH=\"/Applications/OpenLid.app\""));
}

#[test]
fn render_installer_script_leaves_no_placeholder_strings() {
    let out = render_installer_script(1, "/tmp/x.dmg", "/Applications/OpenLid.app");
    assert!(!out.contains("__"), "output still contains a `__` placeholder: {out}");
}

#[test]
fn render_installer_script_starts_with_shebang() {
    let out = render_installer_script(1, "/tmp/x.dmg", "/Applications/OpenLid.app");
    assert!(out.starts_with("#!/bin/sh"), "got: {}", &out[..40]);
}

#[test]
fn render_installer_script_preserves_atomic_swap_pattern() {
    let out = render_installer_script(1, "/tmp/x.dmg", "/Applications/OpenLid.app");
    let staging = out
        .find("cp -R \"$VOLUME_PATH/OpenLid.app\" \"${APP_PATH}.new\"")
        .expect("staging step missing");
    let destroy = out.find("rm -rf \"$APP_PATH\"").expect("destroy step missing");
    let swap = out
        .find("mv \"${APP_PATH}.new\" \"$APP_PATH\"")
        .expect("swap step missing");
    assert!(staging < destroy, "staging must precede destroy");
    assert!(destroy < swap, "destroy must precede swap");
}

#[test]
fn render_installer_script_verifies_signature_before_destructive_swap() {
    let out = render_installer_script(1, "/tmp/x.dmg", "/Applications/OpenLid.app");
    let verify = out
        .find(r#"codesign --verify --deep --strict -R="$OPENLID_CODE_REQUIREMENT" "$VOLUME_PATH/OpenLid.app""#)
        .expect("pinned codesign invocation missing");
    assert!(
        out.contains(
            r#"OPENLID_CODE_REQUIREMENT='identifier "io.openlid.app" and anchor apple generic and certificate 1[field.1.2.840.113635.100.6.2.6] /* exists */ and certificate leaf[field.1.2.840.113635.100.6.1.13] /* exists */ and certificate leaf[subject.OU] = "X5SZL4562S"'"#
        ),
        "requirement must match the helper's PROD_REQUIREMENT, got: {out}"
    );
    let destroy = out.find("rm -rf \"$APP_PATH\"").expect("destroy step missing");
    assert!(verify < destroy, "signature verification must precede the destructive swap");
}

#[test]
fn render_installer_script_verifies_dmg_signature_before_mounting() {
    let out = render_installer_script(1, "/tmp/x.dmg", "/Applications/OpenLid.app");
    let verify = out
        .find(r#"codesign --verify --strict -R="$OPENLID_DMG_REQUIREMENT" "$DMG_PATH""#)
        .expect("pinned DMG codesign invocation missing");
    assert!(
        out.contains(
            r#"OPENLID_DMG_REQUIREMENT='anchor apple generic and certificate 1[field.1.2.840.113635.100.6.2.6] /* exists */ and certificate leaf[field.1.2.840.113635.100.6.1.13] /* exists */ and certificate leaf[subject.OU] = "X5SZL4562S"'"#
        ),
        "DMG requirement must pin the Developer ID chain + Team ID, got: {out}"
    );
    let mount = out.find("hdiutil attach").expect("mount step missing");
    assert!(verify < mount, "DMG signature verification must precede mounting");
}

#[test]
fn installer_requirements_stay_in_lockstep_with_helper_prod_requirement() {
    let prod = PROD_REQUIREMENT;
    assert!(
        prod.contains("X5SZL4562S") && prod.starts_with(r#"identifier "io.openlid.app""#),
        "unexpected PROD_REQUIREMENT: {prod:?}"
    );
    let dmg_req = prod
        .strip_prefix(r#"identifier "io.openlid.app" and "#)
        .expect("PROD_REQUIREMENT must start with the identifier clause the DMG check drops");
    let out = render_installer_script(1, "/tmp/x.dmg", "/Applications/OpenLid.app");
    assert!(out.contains(prod), "the bundle check drifted from PROD_REQUIREMENT");
    assert!(out.contains(dmg_req), "the DMG check drifted from PROD_REQUIREMENT");
}

#[test]
fn render_installer_script_waits_for_old_menubar_before_relaunch() {
    let out = render_installer_script(1, "/tmp/x.dmg", "/Applications/OpenLid.app");
    let exact_app_pattern = "APP_EXEC_RE=\"$APP_PATH/Contents/MacOS/openlid([[:space:]]|$)\"";
    let term = out.find("pkill -TERM -f \"$APP_EXEC_RE\"");
    let wait = out.find("while pgrep -f \"$APP_EXEC_RE\"");
    let swap = out.find("log \"swapping in the new bundle\"").expect("swap step missing");
    let relaunch = out.find("log \"relaunching openlid\"").expect("relaunch step missing");
    assert!(out.contains(exact_app_pattern));
    assert!(term.is_some(), "script should TERM the old menubar");
    assert!(wait.is_some(), "script should wait for the old menubar to exit");
    assert!(term.unwrap() < wait.unwrap(), "wait must happen after TERM");
    assert!(wait.unwrap() < swap, "old menubar must be gone before swapping");
    assert!(swap < relaunch, "relaunch must happen after the swap");
}

#[test]
fn installer_script_path_uses_parent_pid_for_uniqueness() {
    let a = installer_script_path("/tmp", 12345);
    let b = installer_script_path("/tmp", 67890);
    assert_ne!(a, b);
    assert!(a.contains("12345"));
    assert!(a.ends_with(".sh"));
}

#[test]
fn installer_log_path_pairs_with_script_path() {
    let script = installer_script_path("/tmp", 42);
    let log = installer_log_path("/tmp", 42);
    assert_eq!(
        std::path::Path::new(&script).with_extension("log"),
        std::path::Path::new(&log)
    );
    assert_eq!(log, "/tmp/openlid-installer-42.log");
}

fn sample_assets() -> Vec<AssetInfo> {
    vec![
        AssetInfo {
            name: "OpenLid-v2.1.0.dmg".to_string(),
            browser_download_url: "https://example.com/OpenLid-v2.1.0.dmg".to_string(),
            size: 1234567,
            digest: Some("sha256:abcdef0123456789".to_string()),
        },
        AssetInfo {
            name: "OpenLid-v2.1.0.dmg.sha256".to_string(),
            browser_download_url: "https://example.com/OpenLid-v2.1.0.dmg.sha256".to_string(),
            size: 64,
            digest: None,
        },
    ]
}

#[test]
fn pick_dmg_asset_returns_the_dmg_among_mixed_assets() {
    let assets = sample_assets();
    let dmg = pick_dmg_asset(&assets).unwrap();
    assert_eq!(dmg.name, "OpenLid-v2.1.0.dmg");
    assert_eq!(dmg.size, 1234567);
}

#[test]
fn pick_dmg_asset_errors_when_no_dmg_present() {
    let assets = vec![AssetInfo {
        name: "checksums.txt".into(),
        browser_download_url: "https://example.com/c.txt".into(),
        size: 100,
        digest: None,
    }];
    let err = pick_dmg_asset(&assets).unwrap_err();
    assert!(err.message().contains("no .dmg"));
}

#[test]
fn pick_dmg_asset_takes_the_first_of_several() {
    let mut assets = sample_assets();
    assets.reverse();
    assets.push(AssetInfo {
        name: "Other.dmg".into(),
        browser_download_url: "https://example.com/o.dmg".into(),
        size: 1,
        digest: None,
    });
    assert_eq!(pick_dmg_asset(&assets).unwrap().name, "OpenLid-v2.1.0.dmg");
}

#[test]
fn strip_v_prefix_handles_v_prefix() {
    assert_eq!(strip_v_prefix("v2.1.0").unwrap(), "2.1.0");
}

#[test]
fn strip_v_prefix_accepts_bare_numeric_version() {
    assert_eq!(strip_v_prefix("2.1.0").unwrap(), "2.1.0");
}

#[test]
fn strip_v_prefix_rejects_non_version_strings() {
    assert!(strip_v_prefix("latest").is_err());
    assert!(strip_v_prefix("nightly").is_err());
}

#[test]
fn strip_v_prefix_error_names_the_tag() {
    let err = strip_v_prefix("latest").unwrap_err();
    assert_eq!(err, ReleaseError::BadVersionTag("latest".to_string()));
    assert_eq!(
        err.message(),
        "expected a version tag like 'v2.1.0' or '2.1.0', got: latest"
    );
}

#[test]
fn parse_digest_extracts_hex_from_sha256_prefix() {
    let hex = parse_digest("sha256:abcdef0123456789").unwrap();
    assert_eq!(hex, "abcdef0123456789");
}

#[test]
fn parse_digest_rejects_other_algorithms() {
    assert!(parse_digest("sha512:abc123").is_err());
    assert!(parse_digest("plain-hex-no-prefix").is_err());
}

fn current_major() -> u64 {
    CURRENT_VERSION.split('.').next().unwrap().parse().unwrap()
}

#[test]
fn current_version_parses_cargo_pkg_version() {
    assert!(current_version().is_ok());
    assert!(current_major() >= 2, "expected major>=2, got {CURRENT_VERSION}");
}

#[test]
fn is_newer_than_current_returns_false_for_same_version() {
    let same = format!("v{}", CURRENT_VERSION);
    assert!(!is_newer_than_current(&same).unwrap());
}

#[test]
fn is_newer_than_current_returns_true_for_higher_major() {
    let newer = format!("v{}.0.0", current_major() + 10);
    assert!(is_newer_than_current(&newer).unwrap());
}

#[test]
fn is_newer_than_current_returns_false_for_lower_version() {
    assert!(!is_newer_than_current("v0.0.1").unwrap());
}

#[test]
fn is_newer_than_current_errors_on_garbage_tag() {
    assert!(is_newer_than_current("not-a-version").is_err());
}

#[test]
fn is_newer_than_current_rejects_a_malformed_version() {
    let err = is_newer_than_current("v2.x").unwrap_err();
    let cause = "unexpected character 'x' while parsing minor version number".to_string();
    assert_eq!(err, ReleaseError::InvalidVersion { tag: "v2.x".to_string(), cause });
    assert_eq!(
        err.message(),
        "parsing release version 'v2.x': unexpected character 'x' while parsing minor version number"
    );
}

#[test]
fn is_newer_than_current_orders_by_semver_not_text() {
    // "2.10.0" sorts below "2.3.3" as text but is newer as a version.
    assert!(is_newer_than_current("2.10.0").unwrap());
    // A pre-release of the current version is older than it.
    assert!(!is_newer_than_current(&format!("v{}-rc.1", CURRENT_VERSION)).unwrap());
}

#[test]
fn strip_v_prefix_needs_a_digit_after_the_v() {
    assert!(strip_v_prefix("vnightly").is_err());
    assert!(strip_v_prefix("v").is_err());
    assert!(strip_v_prefix("vv2.1.0").is_err());
    assert_eq!(strip_v_prefix("v9").unwrap(), "9");
}
