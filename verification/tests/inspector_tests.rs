use unity_package_manager::inspector::{build_installed_packages, extract_unity_version, project_name};
use unity_package_manager::installer::PackageManager;
use unity_package_manager::models::{AppConfig, Package, PackageVersion, PmError};

#[test]
fn project_name_is_the_final_path_segment() {
    assert_eq!(project_name("/home/user/MyGame"), "MyGame");
    assert_eq!(project_name("C:\\projects\\Game"), "Game");
    assert_eq!(project_name("/a/b/"), "b");
    assert_eq!(project_name(""), "Unknown Project");
    assert_eq!(project_name("///"), "Unknown Project");
}

#[test]
fn unity_version_from_settings_text() {
    let text = "m_EditorVersion: 2021.3.16f1\nm_EditorVersionWithRevision: 2021.3.16f1 (4016570cf34f)\n";
    assert_eq!(extract_unity_version(text).as_deref(), Some("2021.3.16f1"));
}

#[test]
fn unity_version_key_must_start_a_line() {
    let text = "x m_EditorVersion: 1\nm_EditorVersion: 2020.1.0f1";
    assert_eq!(extract_unity_version(text).as_deref(), Some("2020.1.0f1"));
}

#[test]
fn unity_version_absent_key() {
    assert!(extract_unity_version("productName: Game\n").is_none());
}

#[test]
fn installed_packages_cover_all_reference_kinds() {
    let entries = vec![
        ("com.local".to_string(), "file:com_local".to_string()),
        ("com.git".to_string(), "git+https://h/r.git#2.0.0".to_string()),
        ("com.reg".to_string(), "1.4.0".to_string()),
    ];
    let metadata = vec![
        Some(r#"{"version": "0.9.0", "repository": {"url": "https://h/local.git"}}"#.to_string()),
        None,
        None,
    ];
    let packages = build_installed_packages(&entries, &metadata);
    assert_eq!(packages.len(), 3);

    assert_eq!(packages[0].name, "com.local");
    assert_eq!(packages[0].version, "0.9.0");
    assert_eq!(packages[0].git_url, "https://h/local.git");
    assert!(packages[0].installed_from_registry.is_none());

    assert_eq!(packages[1].name, "com.git");
    assert_eq!(packages[1].version, "git");
    assert_eq!(packages[1].git_url, "git+https://h/r.git#2.0.0");

    assert_eq!(packages[2].name, "com.reg");
    assert_eq!(packages[2].version, "1.4.0");
    assert_eq!(packages[2].git_url, "");
}

#[test]
fn installed_package_with_unreadable_metadata_degrades() {
    let entries = vec![("com.local".to_string(), "file:com_local".to_string())];
    let metadata = vec![Some("broken".to_string())];
    let packages = build_installed_packages(&entries, &metadata);
    assert_eq!(packages[0].version, "unknown");
    assert_eq!(packages[0].git_url, "");
}

#[test]
fn project_info_combines_all_sources() {
    let settings = "m_EditorVersion: 2022.2.1f1\n";
    let manifest = r#"{"dependencies": {"com.a": "file:com_a", "com.b": "1.0.0"}}"#;
    let metadata = vec![Some(r#"{"version": "5.0.0"}"#.to_string()), None];
    let info = PackageManager::get_project_info(
        "/work/Proj",
        Some(settings),
        Some(manifest),
        &metadata,
    )
    .unwrap();

    assert_eq!(info.path, "/work/Proj");
    assert_eq!(info.name, "Proj");
    assert_eq!(info.unity_version.as_deref(), Some("2022.2.1f1"));
    assert_eq!(info.packages.len(), 2);
    assert_eq!(info.packages[0].name, "com.a");
    assert_eq!(info.packages[0].version, "5.0.0");
    assert_eq!(info.packages[1].name, "com.b");
    assert_eq!(info.packages[1].version, "1.0.0");
}

#[test]
fn project_info_without_files() {
    let info = PackageManager::get_project_info("/p/Game", None, None, &Vec::new()).unwrap();
    assert_eq!(info.name, "Game");
    assert!(info.unity_version.is_none());
    assert!(info.packages.is_empty());
}

#[test]
fn project_info_propagates_a_manifest_parse_error() {
    assert_eq!(
        PackageManager::get_project_info("/p/Game", None, Some("bad"), &Vec::new()).unwrap_err(),
        PmError::ManifestParseError
    );
}

#[test]
fn default_config_selects_the_dark_theme() {
    let c = AppConfig::default();
    assert_eq!(c.theme, "dark");
    assert!(c.registries.is_empty());
    assert!(c.project_paths.is_empty());
    assert!(c.selected_project_path.is_none());
}

#[test]
fn expanding_a_package_substitutes_version_fields() {
    let base = Package {
        name: "com.pkg".to_string(),
        display_name: "Pkg".to_string(),
        description: "d".to_string(),
        git_url: "https://h/pkg.git".to_string(),
        author: Some("a".to_string()),
        keywords: Some(vec!["k1".to_string(), "k2".to_string()]),
        category: None,
        license: Some("MIT".to_string()),
        versions: Some(Vec::new()),
        version: None,
        git_branch: None,
        git_tag: None,
        dependencies: None,
        unity_version: None,
        is_prerelease: false,
    };
    let v = PackageVersion {
        version: "2.1.0".to_string(),
        git_tag: Some("2.1.0".to_string()),
        git_branch: None,
        is_prerelease: true,
        unity_version: Some("2021.3".to_string()),
        dependencies: Some(vec![("com.dep".to_string(), "1.0.0".to_string())]),
    };
    let e = base.expanded_with(&v);
    assert_eq!(e.name, "com.pkg");
    assert_eq!(e.display_name, "Pkg");
    assert_eq!(e.git_url, "https://h/pkg.git");
    assert_eq!(e.keywords.as_deref(), Some(&["k1".to_string(), "k2".to_string()][..]));
    assert!(e.versions.is_none());
    assert_eq!(e.version.as_deref(), Some("2.1.0"));
    assert_eq!(e.git_tag.as_deref(), Some("2.1.0"));
    assert!(e.git_branch.is_none());
    assert!(e.is_prerelease);
    assert_eq!(e.unity_version.as_deref(), Some("2021.3"));
    assert_eq!(
        e.dependencies.as_deref(),
        Some(&[("com.dep".to_string(), "1.0.0".to_string())][..])
    );
}

#[test]
fn project_info_degrades_on_a_non_object_document() {
    let info = PackageManager::get_project_info("/p/Game", None, Some("[1, 2]"), &Vec::new())
        .unwrap();
    assert!(info.packages.is_empty());
}
