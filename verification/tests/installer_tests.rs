use unity_package_manager::installer::{
    sanitize_directory_name, CheckoutSelector, PackageManager,
};
use unity_package_manager::models::{Package, PmError};
use unity_package_manager::reference::DependencyReference;

fn descriptor(name: &str, git_url: &str, git_tag: Option<&str>, git_branch: Option<&str>) -> Package {
    Package {
        name: name.to_string(),
        display_name: String::new(),
        description: String::new(),
        git_url: git_url.to_string(),
        author: None,
        keywords: None,
        category: None,
        license: None,
        versions: None,
        version: None,
        git_branch: git_branch.map(|b| b.to_string()),
        git_tag: git_tag.map(|t| t.to_string()),
        dependencies: None,
        unity_version: None,
        is_prerelease: false,
    }
}

fn dep_of(manifest_text: &str, name: &str) -> Option<String> {
    let doc: serde_json::Value = serde_json::from_str(manifest_text).unwrap();
    doc.get("dependencies")
        .and_then(|d| d.get(name))
        .and_then(|v| v.as_str())
        .map(|s| s.to_string())
}

#[test]
fn sanitize_replaces_separators_and_dots() {
    assert_eq!(sanitize_directory_name("com.foo.bar"), "com_foo_bar");
    assert_eq!(sanitize_directory_name("a/b\\c.d"), "a_b_c_d");
    assert_eq!(sanitize_directory_name("plain"), "plain");
}

#[test]
fn install_over_git_url_reference() {
    let text = r#"{"dependencies": {"com.foo.bar": "https://example.com/foo.git"}}"#;
    let pkg = descriptor("com.foo.bar", "https://example.com/foo.git", Some("1.2.0"), None);
    let plan = PackageManager::install_package(Some(text), &pkg).unwrap();

    assert!(matches!(plan.prior, Some(DependencyReference::GitUrl { .. })));
    assert!(plan.remove_dir_first.is_none());
    assert_eq!(plan.target_dir, "com_foo_bar");
    assert_eq!(plan.git_url, "https://example.com/foo.git");
    assert!(matches!(plan.selector, CheckoutSelector::Tag(ref t) if t == "1.2.0"));
    assert_eq!(dep_of(&plan.new_manifest_text, "com.foo.bar").as_deref(), Some("file:com_foo_bar"));
}

#[test]
fn install_twice_reuses_one_slot() {
    let text = r#"{"dependencies": {"com.foo.bar": "https://example.com/foo.git"}}"#;
    let pkg = descriptor("com.foo.bar", "https://example.com/foo.git", Some("1.2.0"), None);
    let first = PackageManager::install_package(Some(text), &pkg).unwrap();
    let second = PackageManager::install_package(Some(&first.new_manifest_text), &pkg).unwrap();

    assert_eq!(second.target_dir, "com_foo_bar");
    assert!(matches!(second.prior, Some(DependencyReference::Local { ref directory_name }) if directory_name == "com_foo_bar"));
    assert_eq!(second.remove_dir_first.as_deref(), Some("com_foo_bar"));

    let doc: serde_json::Value = serde_json::from_str(&second.new_manifest_text).unwrap();
    let deps = doc.get("dependencies").and_then(|d| d.as_object()).unwrap();
    assert_eq!(deps.len(), 1);
    assert_eq!(dep_of(&second.new_manifest_text, "com.foo.bar").as_deref(), Some("file:com_foo_bar"));
}

#[test]
fn install_over_registry_reference() {
    let text = r#"{"dependencies": {"com.foo.bar": "1.0.0"}}"#;
    let pkg = descriptor("com.foo.bar", "https://example.com/foo.git", None, None);
    let plan = PackageManager::install_package(Some(text), &pkg).unwrap();

    assert!(matches!(plan.prior, Some(DependencyReference::RegistryVersion { .. })));
    assert!(plan.remove_dir_first.is_none());
    assert!(matches!(plan.selector, CheckoutSelector::DefaultBranch));
    assert_eq!(dep_of(&plan.new_manifest_text, "com.foo.bar").as_deref(), Some("file:com_foo_bar"));
}

#[test]
fn install_prior_local_names_its_directory() {
    let text = r#"{"dependencies": {"com.foo.bar": "file:com_foo_bar"}}"#;
    let pkg = descriptor("com.foo.bar", "https://example.com/foo.git", None, Some("main"));
    let plan = PackageManager::install_package(Some(text), &pkg).unwrap();

    assert_eq!(plan.remove_dir_first.as_deref(), Some("com_foo_bar"));
    assert!(matches!(plan.selector, CheckoutSelector::Branch(ref b) if b == "main"));
}

#[test]
fn install_tag_takes_precedence_over_branch() {
    let text = r#"{"dependencies": {}}"#;
    let pkg = descriptor("com.x", "https://h/r.git", Some("2.0.0"), Some("main"));
    let plan = PackageManager::install_package(Some(text), &pkg).unwrap();
    assert!(matches!(plan.selector, CheckoutSelector::Tag(ref t) if t == "2.0.0"));
}

#[test]
fn install_requires_a_manifest() {
    let pkg = descriptor("com.x", "https://h/r.git", None, None);
    assert_eq!(
        PackageManager::install_package(None, &pkg).unwrap_err(),
        PmError::ProjectNotInitialized
    );
}

#[test]
fn install_rejects_a_malformed_manifest() {
    let pkg = descriptor("com.x", "https://h/r.git", None, None);
    assert_eq!(
        PackageManager::install_package(Some("nonsense"), &pkg).unwrap_err(),
        PmError::ManifestParseError
    );
}

#[test]
fn remove_local_reference_deletes_directory_and_entry() {
    let text = r#"{"dependencies": {"com.a": "file:com_a", "com.b": "1.0.0"}}"#;
    let plan = PackageManager::remove_package(Some(text), "com.a").unwrap();

    assert!(matches!(plan.removed, Some(DependencyReference::Local { .. })));
    assert_eq!(plan.dir_to_delete.as_deref(), Some("com_a"));
    assert!(dep_of(&plan.new_manifest_text, "com.a").is_none());
    assert_eq!(dep_of(&plan.new_manifest_text, "com.b").as_deref(), Some("1.0.0"));
}

#[test]
fn remove_git_reference_deletes_only_the_entry() {
    let text = r#"{"dependencies": {"com.a": "git+https://h/r.git"}}"#;
    let plan = PackageManager::remove_package(Some(text), "com.a").unwrap();

    assert!(matches!(plan.removed, Some(DependencyReference::GitUrl { .. })));
    assert!(plan.dir_to_delete.is_none());
    assert!(dep_of(&plan.new_manifest_text, "com.a").is_none());
}

#[test]
fn remove_registry_reference_deletes_only_the_entry() {
    let text = r#"{"dependencies": {"com.a": "1.0.0"}}"#;
    let plan = PackageManager::remove_package(Some(text), "com.a").unwrap();

    assert!(matches!(plan.removed, Some(DependencyReference::RegistryVersion { .. })));
    assert!(plan.dir_to_delete.is_none());
    assert!(dep_of(&plan.new_manifest_text, "com.a").is_none());
}

#[test]
fn remove_absent_entry_is_not_an_error() {
    let text = r#"{"dependencies": {}}"#;
    let plan = PackageManager::remove_package(Some(text), "com.a").unwrap();
    assert!(plan.removed.is_none());
    assert!(plan.dir_to_delete.is_none());
}

#[test]
fn remove_requires_a_manifest() {
    assert_eq!(
        PackageManager::remove_package(None, "com.a").unwrap_err(),
        PmError::ProjectNotInitialized
    );
}

#[test]
fn conflict_is_none_without_a_manifest_file() {
    assert_eq!(PackageManager::check_package_conflicts(None, "com.a").unwrap(), None);
}

#[test]
fn conflict_is_none_without_an_entry() {
    let text = r#"{"dependencies": {"com.b": "1.0.0"}}"#;
    assert_eq!(PackageManager::check_package_conflicts(Some(text), "com.a").unwrap(), None);
}

#[test]
fn conflict_reports_the_raw_reference() {
    let text = r#"{"dependencies": {"com.a": "git+https://h/r.git#2.0.0"}}"#;
    assert_eq!(
        PackageManager::check_package_conflicts(Some(text), "com.a").unwrap().as_deref(),
        Some("git+https://h/r.git#2.0.0")
    );
}

#[test]
fn conflict_propagates_a_parse_error() {
    assert_eq!(
        PackageManager::check_package_conflicts(Some("nope"), "com.a").unwrap_err(),
        PmError::ManifestParseError
    );
}

#[test]
fn info_for_git_reference_with_fragment() {
    let text = r#"{"dependencies": {"com.a": "git+https://x/y.git#2.1.0"}}"#;
    let info = PackageManager::get_installed_package_info(Some(text), "com.a", None).unwrap();
    assert_eq!(info, Some(("2.1.0".to_string(), "git".to_string())));
}

#[test]
fn info_for_git_reference_without_fragment() {
    let text = r#"{"dependencies": {"com.a": "https://x/y.git"}}"#;
    let info = PackageManager::get_installed_package_info(Some(text), "com.a", None).unwrap();
    assert_eq!(info, Some(("latest".to_string(), "git".to_string())));
}

#[test]
fn info_for_registry_reference() {
    let text = r#"{"dependencies": {"com.a": "1.0.0"}}"#;
    let info = PackageManager::get_installed_package_info(Some(text), "com.a", None).unwrap();
    assert_eq!(info, Some(("1.0.0".to_string(), "registry".to_string())));
}

#[test]
fn info_for_local_reference_reads_metadata() {
    let text = r#"{"dependencies": {"com.a": "file:com_a"}}"#;
    let meta = r#"{"version": "3.1.4"}"#;
    let info = PackageManager::get_installed_package_info(Some(text), "com.a", Some(meta)).unwrap();
    assert_eq!(info, Some(("3.1.4".to_string(), "local".to_string())));
}

#[test]
fn info_for_local_reference_without_metadata() {
    let text = r#"{"dependencies": {"com.a": "file:com_a"}}"#;
    let info = PackageManager::get_installed_package_info(Some(text), "com.a", None).unwrap();
    assert_eq!(info, Some(("unknown".to_string(), "local".to_string())));
}

#[test]
fn info_is_none_for_absent_manifest_or_entry() {
    assert_eq!(PackageManager::get_installed_package_info(None, "com.a", None).unwrap(), None);
    let text = r#"{"dependencies": {}}"#;
    assert_eq!(
        PackageManager::get_installed_package_info(Some(text), "com.a", None).unwrap(),
        None
    );
}

#[test]
fn local_directory_of_references() {
    assert_eq!(PackageManager::local_directory_of("file:com_a").as_deref(), Some("com_a"));
    assert!(PackageManager::local_directory_of("1.0.0").is_none());
    assert!(PackageManager::local_directory_of("https://h/r.git").is_none());
}

#[test]
fn install_rejects_a_document_it_cannot_write_into() {
    let pkg = descriptor("com.x", "https://h/r.git", None, None);
    assert_eq!(
        PackageManager::install_package(Some("[1, 2]"), &pkg).unwrap_err(),
        PmError::ManifestParseError
    );
    assert_eq!(
        PackageManager::install_package(Some(r#"{"dependencies": 5}"#), &pkg).unwrap_err(),
        PmError::ManifestParseError
    );
}

#[test]
fn remove_degrades_on_a_document_without_a_dependency_object() {
    let text = r#"{"dependencies": 5}"#;
    let plan = PackageManager::remove_package(Some(text), "com.a").unwrap();
    assert!(plan.removed.is_none());
    assert!(plan.dir_to_delete.is_none());
    assert_eq!(plan.new_manifest_text, text);
}

#[test]
fn conflict_degrades_on_a_non_object_document() {
    assert_eq!(PackageManager::check_package_conflicts(Some("[1, 2]"), "com.a").unwrap(), None);
}

#[test]
fn info_degrades_on_a_document_without_a_dependency_object() {
    assert_eq!(
        PackageManager::get_installed_package_info(Some(r#"{"dependencies": 5}"#), "com.a", None)
            .unwrap(),
        None
    );
}
