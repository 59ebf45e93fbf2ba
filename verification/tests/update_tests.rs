use wave_os_shell::ollama::JsonValue;
use wave_os_shell::update::{current_version, newer_release, update_available, update_manifest_url};

fn manifest(version: JsonValue) -> Option<JsonValue> {
    Some(JsonValue::Object(vec![
        ("version".to_string(), version),
        ("notes".to_string(), JsonValue::Str("fixes".to_string())),
    ]))
}

#[test]
fn endpoint_and_version() {
    assert_eq!(update_manifest_url(), "https://oswave.io/updates/latest.json");
    assert_eq!(current_version(), "1.0.0");
}

#[test]
fn newer_release_offered() {
    assert_eq!(update_available(&manifest(JsonValue::Str("1.1.0".to_string()))), Some("1.1.0".to_string()));
}

#[test]
fn same_or_missing_version_offers_nothing() {
    assert_eq!(update_available(&manifest(JsonValue::Str("1.0.0".to_string()))), None);
    assert_eq!(update_available(&manifest(JsonValue::Number("2".to_string()))), None);
    assert_eq!(update_available(&Some(JsonValue::Null)), None);
    assert_eq!(update_available(&None), None);
}

#[test]
fn only_later_releases_offered() {
    for later in ["1.0.1", "1.1.0", "2.0.0", "10.0.0", "1.0.10", "99999999999999999999.0.0"] {
        assert_eq!(update_available(&manifest(JsonValue::Str(later.to_string()))), Some(later.to_string()));
    }
    for earlier in ["0.9.0", "0.0.1", "0.99.99", "1.0.0"] {
        assert_eq!(update_available(&manifest(JsonValue::Str(earlier.to_string()))), None);
    }
}

#[test]
fn malformed_versions_not_offered() {
    for bad in ["", "1.1", "2", "1.1.0-beta", "1.1.0+build", "v1.1.0", "01.1.0", "1..0", "1.1.0.0", "1.a.0", ".1.0"] {
        assert!(!newer_release(&bad.to_string()), "{}", bad);
        assert_eq!(update_available(&manifest(JsonValue::Str(bad.to_string()))), None);
    }
    assert!(newer_release(&"1.0.1".to_string()));
    assert!(!newer_release(&"1.0.0".to_string()));
}
