use unity_package_manager::manifest::Manifest;
use unity_package_manager::models::PmError;

#[test]
fn parse_reads_string_dependencies() {
    let text = r#"{"dependencies": {"com.a": "1.0.0", "com.b": "file:com_b"}}"#;
    let m = Manifest::parse(text).unwrap().unwrap();
    assert_eq!(m.lookup("com.a").as_deref(), Some("1.0.0"));
    assert_eq!(m.lookup("com.b").as_deref(), Some("file:com_b"));
    assert!(m.lookup("com.c").is_none());
    assert_eq!(m.dep_count(), 2);
}

#[test]
fn parse_without_dependencies_member() {
    let m = Manifest::parse("{}").unwrap().unwrap();
    assert_eq!(m.dep_count(), 0);
}

#[test]
fn parse_rejects_malformed_json() {
    assert_eq!(Manifest::parse("not json").err().unwrap(), PmError::ManifestParseError);
}

#[test]
fn parse_degrades_a_non_object_document() {
    assert!(Manifest::parse("[1, 2]").unwrap().is_none());
}

#[test]
fn parse_degrades_non_object_dependencies() {
    assert!(Manifest::parse(r#"{"dependencies": 5}"#).unwrap().is_none());
}

#[test]
fn upsert_replaces_and_creates_entries() {
    let text = r#"{"dependencies": {"com.a": "1.0.0"}}"#;
    let mut m = Manifest::parse(text).unwrap().unwrap();
    m.upsert("com.a", "file:com_a");
    m.upsert("com.b", "2.0.0");
    assert_eq!(m.lookup("com.a").as_deref(), Some("file:com_a"));
    assert_eq!(m.lookup("com.b").as_deref(), Some("2.0.0"));
    assert_eq!(m.dep_count(), 2);
}

#[test]
fn remove_returns_the_prior_reference() {
    let text = r#"{"dependencies": {"com.a": "file:com_a"}}"#;
    let mut m = Manifest::parse(text).unwrap().unwrap();
    assert_eq!(m.remove("com.a").as_deref(), Some("file:com_a"));
    assert!(m.remove("com.a").is_none());
    assert_eq!(m.dep_count(), 0);
}

#[test]
fn render_round_trips_dependencies() {
    let text = r#"{"dependencies": {"com.a": "1.0.0"}}"#;
    let mut m = Manifest::parse(text).unwrap().unwrap();
    m.upsert("com.b", "file:com_b");
    let out = m.render();
    let back = Manifest::parse(&out).unwrap().unwrap();
    assert_eq!(back.lookup("com.a").as_deref(), Some("1.0.0"));
    assert_eq!(back.lookup("com.b").as_deref(), Some("file:com_b"));
    assert_eq!(back.dep_count(), 2);
}

#[test]
fn render_preserves_other_top_level_members() {
    let text = r#"{
        "scopedRegistries": [{"name": "main", "url": "https://r", "scopes": ["com"]}],
        "enableLockFile": true,
        "dependencies": {"com.a": "1.0.0"}
    }"#;
    let mut m = Manifest::parse(text).unwrap().unwrap();
    m.upsert("com.a", "file:com_a");
    let out = m.render();

    let doc: serde_json::Value = serde_json::from_str(&out).unwrap();
    let before: serde_json::Value = serde_json::from_str(text).unwrap();
    assert_eq!(doc.get("scopedRegistries"), before.get("scopedRegistries"));
    assert_eq!(doc.get("enableLockFile"), before.get("enableLockFile"));
    assert_eq!(
        doc.get("dependencies").and_then(|d| d.get("com.a")).and_then(|v| v.as_str()),
        Some("file:com_a")
    );
}

#[test]
fn render_keeps_non_string_dependency_values() {
    let text = r#"{"dependencies": {"com.a": "1.0.0", "weird": {"nested": true}}}"#;
    let m = Manifest::parse(text).unwrap().unwrap();
    assert_eq!(m.dep_count(), 1);
    let out = m.render();
    let doc: serde_json::Value = serde_json::from_str(&out).unwrap();
    let weird = doc.get("dependencies").and_then(|d| d.get("weird"));
    assert!(weird.is_some());
    assert_eq!(weird.and_then(|w| w.get("nested")).and_then(|v| v.as_bool()), Some(true));
}
