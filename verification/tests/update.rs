use easytier_pro::release::{
    check_app_update, check_core_update, select_core_zip_asset, select_dmg_asset, arch_keyword,
    AppUpdateInfo, CoreUpdateInfo, GitHubAsset, GitHubRelease,
};
use easytier_pro::version::{is_newer, strip_v_prefix};

fn make_assets(names: &[&str]) -> Vec<GitHubAsset> {
    names
        .iter()
        .map(|name| GitHubAsset {
            name: name.to_string(),
            browser_download_url: format!("https://example.com/{}", name),
        })
        .collect()
}

// ========== strip_v_prefix ==========

#[test]
fn test_strip_v_prefix_with_v() {
    assert_eq!(strip_v_prefix("v1.2.3"), "1.2.3");
}

#[test]
fn test_strip_v_prefix_without_v() {
    assert_eq!(strip_v_prefix("1.2.3"), "1.2.3");
}

#[test]
fn test_strip_v_prefix_empty() {
    assert_eq!(strip_v_prefix(""), "");
}

// ========== is_newer ==========

#[test]
fn test_is_newer_latest_greater() {
    assert!(is_newer("0.0.1", "v0.0.2"));
    assert!(is_newer("1.0.0", "v2.0.0"));
    assert!(is_newer("1.0.0", "1.1.0"));
    assert!(is_newer("1.0.0", "1.0.1"));
}

#[test]
fn test_is_newer_same_version() {
    assert!(!is_newer("0.0.1", "v0.0.1"));
    assert!(!is_newer("0.0.1", "0.0.1"));
    assert!(!is_newer("1.2.3", "v1.2.3"));
}

#[test]
fn test_is_newer_current_greater() {
    assert!(!is_newer("0.0.2", "v0.0.1"));
    assert!(!is_newer("2.0.0", "v1.0.0"));
}

#[test]
fn test_is_newer_both_no_v_prefix() {
    assert!(is_newer("0.0.1", "0.0.2"));
    assert!(!is_newer("0.0.2", "0.0.1"));
}

#[test]
fn test_is_newer_invalid_version_returns_false() {
    assert!(!is_newer("invalid", "v1.0.0"));
    assert!(!is_newer("1.0.0", "invalid"));
    assert!(!is_newer("", "v1.0.0"));
}

// ========== select_dmg_asset ==========
// The architecture of the machine is an argument here; each test runs for
// both architecture words.

#[test]
fn test_select_dmg_prefers_arch() {
    let assets = make_assets(&[
        "easytier-pro_0.0.4_x86_64.dmg",
        "easytier-pro_0.0.4_aarch64.dmg",
    ]);

    let selected = select_dmg_asset(&assets, "aarch64").unwrap();
    assert!(selected.name.contains("aarch64"));
    let selected = select_dmg_asset(&assets, "x86_64").unwrap();
    assert!(selected.name.contains("x86_64"));
}

#[test]
fn test_select_dmg_tauri_naming() {
    let assets = make_assets(&[
        "easytier-pro_0.0.4_aarch64.dmg",
        "easytier-pro_0.0.4_amd64.deb",
        "easytier-pro_0.0.4_amd64.AppImage",
        "easytier-pro-0.0.4-1.x86_64.rpm",
    ]);

    let selected = select_dmg_asset(&assets, "aarch64").unwrap();
    assert!(selected.name.ends_with(".dmg"));
    assert!(selected.name.contains("aarch64"));
    let selected = select_dmg_asset(&assets, "x86_64").unwrap();
    assert!(selected.name.ends_with(".dmg"));
}

#[test]
fn test_select_dmg_old_naming_compat() {
    let assets = make_assets(&[
        "EasyTierManager-arm64-v1.1.0.dmg",
        "EasyTierManager-x86_64-v1.1.0.dmg",
    ]);
    for arch in ["aarch64", "x86_64"] {
        let selected = select_dmg_asset(&assets, arch).unwrap();
        assert!(selected.name.ends_with(".dmg"));
    }
}

#[test]
fn test_select_dmg_fallback_to_first() {
    let assets = make_assets(&[
        "some-other-file.txt",
        "easytier-pro_0.0.4_aarch64.dmg",
    ]);
    for arch in ["aarch64", "x86_64"] {
        let selected = select_dmg_asset(&assets, arch).unwrap();
        assert!(selected.name.ends_with(".dmg"));
    }
}

#[test]
fn test_select_dmg_no_match() {
    let assets = make_assets(&["readme.md", "source.zip"]);
    assert!(select_dmg_asset(&assets, "aarch64").is_none());
    assert!(select_dmg_asset(&assets, "x86_64").is_none());
}

// ========== select_core_zip_asset ==========

#[test]
fn test_select_core_zip_prefers_macos_arch() {
    let assets = make_assets(&[
        "easytier-windows-x86_64-v2.6.4.zip",
        "easytier-macos-aarch64-v2.6.4.zip",
        "easytier-macos-x86_64-v2.6.4.zip",
        "easytier-linux-x86_64-v2.6.4.zip",
    ]);

    let selected = select_core_zip_asset(&assets, "aarch64").unwrap();
    assert!(selected.name.contains("macos"));
    assert!(selected.name.contains("aarch64"));
    let selected = select_core_zip_asset(&assets, "x86_64").unwrap();
    assert!(selected.name.contains("macos"));
    assert!(selected.name.contains("x86_64"));
}

#[test]
fn test_select_core_zip_no_match() {
    let assets = make_assets(&["readme.md", "source.tar.gz"]);
    assert!(select_core_zip_asset(&assets, "aarch64").is_none());
    assert!(select_core_zip_asset(&assets, "x86_64").is_none());
}

// ========== update records ==========

fn app_info_json(info: &AppUpdateInfo) -> String {
    let mut map = serde_json::Map::new();
    map.insert("has_update".to_string(), serde_json::Value::Bool(info.has_update));
    map.insert("current_version".to_string(), serde_json::Value::String(info.current_version.clone()));
    map.insert("latest_version".to_string(), serde_json::Value::String(info.latest_version.clone()));
    map.insert("release_notes".to_string(), serde_json::Value::String(info.release_notes.clone()));
    map.insert("download_url".to_string(), serde_json::Value::String(info.download_url.clone()));
    serde_json::to_string(&serde_json::Value::Object(map)).unwrap()
}

fn core_info_json(info: &CoreUpdateInfo) -> String {
    let mut map = serde_json::Map::new();
    map.insert("has_update".to_string(), serde_json::Value::Bool(info.has_update));
    map.insert("current_version".to_string(), serde_json::Value::String(info.current_version.clone()));
    map.insert("latest_version".to_string(), serde_json::Value::String(info.latest_version.clone()));
    map.insert("download_url".to_string(), serde_json::Value::String(info.download_url.clone()));
    serde_json::to_string(&serde_json::Value::Object(map)).unwrap()
}

#[test]
fn test_update_info_structures() {
    let app_info = AppUpdateInfo {
        has_update: true,
        current_version: "0.0.1".into(),
        latest_version: "0.0.2".into(),
        release_notes: "修复若干问题".into(),
        download_url: "https://example.com/app.dmg".into(),
    };

    let json = app_info_json(&app_info);
    assert!(json.contains("0.0.1"));
    assert!(json.contains("0.0.2"));
    assert!(json.contains("has_update"));

    let core_info = CoreUpdateInfo {
        has_update: false,
        current_version: "2.6.4".into(),
        latest_version: "2.6.4".into(),
        download_url: "".into(),
    };

    let json = core_info_json(&core_info);
    assert!(json.contains("2.6.4"));
    assert!(!json.contains("\"has_update\":true"));
}

// ========== further cases ==========

#[test]
fn arch_keyword_maps_arm_to_aarch64() {
    assert_eq!(arch_keyword("aarch64"), "aarch64");
    assert_eq!(arch_keyword("arm"), "aarch64");
    assert_eq!(arch_keyword("x86_64"), "x86_64");
    assert_eq!(arch_keyword("riscv64"), "x86_64");
    assert_eq!(arch_keyword(""), "x86_64");
}

#[test]
fn is_newer_follows_semver_precedence() {
    // Pre-releases rank below the release with the same numbers.
    assert!(is_newer("1.0.0-rc.1", "1.0.0"));
    assert!(!is_newer("1.0.0", "1.0.0-rc.1"));
    // Identifier-wise comparison of pre-releases.
    assert!(is_newer("1.0.0-alpha", "1.0.0-alpha.1"));
    assert!(is_newer("1.0.0-beta.2", "1.0.0-beta.11"));
    // Numbers compare as numbers, not as text.
    assert!(is_newer("1.9.0", "1.10.0"));
    // Only one leading `v` is dropped.
    assert!(!is_newer("1.0.0", "vv2.0.0"));
    // Versions need all three numbers.
    assert!(!is_newer("1.0", "2.0"));
}

#[test]
fn same_version_is_never_newer() {
    for v in ["0.0.1", "v2.6.4", "1.0.0-rc.1+build.5", "garbage", ""] {
        assert!(!is_newer(v, v));
    }
}

#[test]
fn newer_is_asymmetric() {
    let versions = ["0.0.1", "0.0.2", "1.0.0-alpha", "1.0.0-alpha.1", "1.0.0", "v1.0.0+b"];
    for a in versions {
        for b in versions {
            assert!(!(is_newer(a, b) && is_newer(b, a)));
        }
    }
}

#[test]
fn check_app_update_reports_release() {
    let release = GitHubRelease {
        tag_name: "v0.0.5".into(),
        body: Some("notes".into()),
        html_url: None,
        assets: make_assets(&[
            "easytier-pro_0.0.5_x86_64.dmg",
            "easytier-pro_0.0.5_aarch64.dmg",
        ]),
    };
    let info = check_app_update("0.0.4", &release, "aarch64");
    assert!(info.has_update);
    assert_eq!(info.current_version, "0.0.4");
    assert_eq!(info.latest_version, "0.0.5");
    assert_eq!(info.release_notes, "notes");
    assert_eq!(info.download_url, "https://example.com/easytier-pro_0.0.5_aarch64.dmg");

    let info = check_app_update("0.0.5", &release, "x86_64");
    assert!(!info.has_update);
    assert_eq!(info.download_url, "https://example.com/easytier-pro_0.0.5_x86_64.dmg");
}

#[test]
fn check_app_update_without_notes_or_image() {
    let release = GitHubRelease {
        tag_name: "0.1.0".into(),
        body: None,
        html_url: Some("https://example.com".into()),
        assets: make_assets(&["readme.md"]),
    };
    let info = check_app_update("0.0.9", &release, "x86_64");
    assert!(info.has_update);
    assert_eq!(info.latest_version, "0.1.0");
    assert_eq!(info.release_notes, "");
    assert_eq!(info.download_url, "");
}

#[test]
fn check_core_update_reports_release() {
    let release = GitHubRelease {
        tag_name: "v2.7.0".into(),
        body: Some("ignored".into()),
        html_url: None,
        assets: make_assets(&[
            "easytier-linux-x86_64-v2.7.0.zip",
            "easytier-macos-x86_64-v2.7.0.zip",
        ]),
    };
    let info = check_core_update("2.6.4", &release, "x86_64");
    assert!(info.has_update);
    assert_eq!(info.current_version, "2.6.4");
    assert_eq!(info.latest_version, "2.7.0");
    assert_eq!(info.download_url, "https://example.com/easytier-macos-x86_64-v2.7.0.zip");

    let info = check_core_update("2.6.4", &release, "aarch64");
    assert_eq!(info.download_url, "");

    let info = check_core_update("not-a-version", &release, "x86_64");
    assert!(!info.has_update);
}

#[test]
fn dmg_for_intel_never_prefers_arm_build() {
    let assets = make_assets(&[
        "EasyTierManager-arm64-v1.1.0.dmg",
        "EasyTierManager-x86_64-v1.1.0.dmg",
    ]);
    assert_eq!(select_dmg_asset(&assets, "x86_64").unwrap().name, "EasyTierManager-x86_64-v1.1.0.dmg");
    assert_eq!(select_dmg_asset(&assets, "aarch64").unwrap().name, "EasyTierManager-arm64-v1.1.0.dmg");
    assert_eq!(select_dmg_asset(&assets, "arm").unwrap().name, "EasyTierManager-arm64-v1.1.0.dmg");

    // On x86_64 the image whose name holds `x86_64` comes before any other.
    let assets = make_assets(&["a.dmg", "b_x86_64.dmg"]);
    assert_eq!(select_dmg_asset(&assets, "x86_64").unwrap().name, "b_x86_64.dmg");
    let assets = make_assets(&["app-x64.dmg", "app-arm64.dmg"]);
    // No name holds `x86_64`: the first disk image is the fallback.
    assert_eq!(select_dmg_asset(&assets, "x86_64").unwrap().name, "app-x64.dmg");
    let assets = make_assets(&["notes.txt", "app-arm64.dmg", "app-aarch64.dmg"]);
    assert_eq!(select_dmg_asset(&assets, "x86_64").unwrap().name, "app-arm64.dmg");
    // On ARM an image without an ARM word is only the fallback.
    let assets = make_assets(&["app-x86_64.dmg", "app-aarch64.dmg"]);
    assert_eq!(select_dmg_asset(&assets, "aarch64").unwrap().name, "app-aarch64.dmg");
}

#[test]
fn newer_is_transitive() {
    let versions = ["0.0.1", "1.0.0-alpha", "1.0.0-alpha.1", "1.0.0-beta.2", "1.0.0-beta.11", "v1.0.0", "1.0.1+b", "2.0.0"];
    for a in versions {
        for b in versions {
            for c in versions {
                if is_newer(a, b) && is_newer(b, c) {
                    assert!(is_newer(a, c));
                }
            }
        }
    }
}
