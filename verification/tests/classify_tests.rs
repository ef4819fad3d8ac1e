use unity_package_manager::reference::{canonical_string, classify, DependencyReference};

#[test]
fn classify_local_reference() {
    match classify("file:com_foo_bar") {
        DependencyReference::Local { directory_name } => {
            assert_eq!(directory_name, "com_foo_bar");
        }
        _ => panic!("expected a local reference"),
    }
}

#[test]
fn classify_https_git_reference() {
    match classify("https://example.com/foo.git") {
        DependencyReference::GitUrl { url, fragment_version } => {
            assert_eq!(url, "https://example.com/foo.git");
            assert!(fragment_version.is_none());
        }
        _ => panic!("expected a git reference"),
    }
}

#[test]
fn classify_git_plus_reference_with_fragment() {
    match classify("git+https://x/y.git#2.1.0") {
        DependencyReference::GitUrl { url, fragment_version } => {
            assert_eq!(url, "git+https://x/y.git");
            assert_eq!(fragment_version.as_deref(), Some("2.1.0"));
        }
        _ => panic!("expected a git reference"),
    }
}

#[test]
fn classify_dot_git_in_the_middle() {
    match classify("ssh://host/repo.git") {
        DependencyReference::GitUrl { url, fragment_version } => {
            assert_eq!(url, "ssh://host/repo.git");
            assert!(fragment_version.is_none());
        }
        _ => panic!("expected a git reference"),
    }
}

#[test]
fn classify_registry_version() {
    match classify("1.0.0") {
        DependencyReference::RegistryVersion { version } => {
            assert_eq!(version, "1.0.0");
        }
        _ => panic!("expected a registry version"),
    }
}

#[test]
fn classify_local_wins_over_git_syntax() {
    match classify("file:weird.git") {
        DependencyReference::Local { directory_name } => {
            assert_eq!(directory_name, "weird.git");
        }
        _ => panic!("expected a local reference"),
    }
}

#[test]
fn roundtrip_local_reference() {
    let r = classify("file:com_foo_bar");
    assert_eq!(canonical_string(&r), "file:com_foo_bar");
}

#[test]
fn roundtrip_registry_reference() {
    let r = classify("1.2.3-preview.4");
    assert_eq!(canonical_string(&r), "1.2.3-preview.4");
}

#[test]
fn canonical_git_reference_keeps_fragment() {
    let r = classify("https://h/r.git#1.0.0");
    assert_eq!(canonical_string(&r), "https://h/r.git#1.0.0");
}
