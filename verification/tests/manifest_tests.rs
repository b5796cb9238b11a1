use bottle_installer::manifest::dependency_manifest;
use bottle_installer::manifest::required_config_lines;
use bottle_installer::pathstr::join_path;

#[test]
fn manifest_lists_the_four_fixed_assets() {
    let m = dependency_manifest();
    assert_eq!(m.len(), 4);

    assert_eq!(
        m[0].url,
        "https://github.com/Gcenx/DXVK-macOS/releases/download/v1.10.3-20230402/dxvk-macOS-async-v1.10.3-20230402-CrossOver.tar.gz"
    );
    assert_eq!(m[0].file_name, "dxvk-macOS-async-v1.10.3-20230402-CrossOver.tar.gz");
    assert!(!m[0].explicit_name);
    assert!(m[0].url.ends_with(&m[0].file_name));

    assert_eq!(
        m[1].url,
        "https://github.com/KhronosGroup/MoltenVK/releases/download/v1.2.4/MoltenVK-macos.tar"
    );
    assert_eq!(m[1].file_name, "MoltenVK-macos.tar");
    assert!(!m[1].explicit_name);
    assert!(m[1].url.ends_with(&m[1].file_name));

    assert_eq!(
        m[2].url,
        "https://drive.google.com/uc?id=1bEkruqhvQTwjv5V2ZmmQIWsAwhuIAPT_&export=download"
    );
    assert_eq!(m[2].file_name, "Overwatch.dxvk-cache");
    assert!(m[2].explicit_name);

    assert_eq!(
        m[3].url,
        "https://drive.google.com/uc?id=1xQMN3YFnmIUb5oj15qQdCWetjkM22IyD&export=download"
    );
    assert_eq!(m[3].file_name, "Settings_v0.ini");
    assert!(m[3].explicit_name);
}

#[test]
fn two_environment_lines_are_required() {
    let lines = required_config_lines();
    assert_eq!(
        lines,
        vec![
            "\"MVK_ALLOW_METAL_FENCES\" = \"1\"".to_string(),
            "\"WINEESYNC\" = \"1\"".to_string(),
        ]
    );
}

#[test]
fn join_path_inserts_one_separator() {
    assert_eq!(join_path("/a", "b/c"), "/a/b/c");
    assert_eq!(join_path("/a/", "b"), "/a/b");
    assert_eq!(join_path("", "b"), "b");
}
