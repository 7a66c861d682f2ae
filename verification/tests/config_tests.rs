//! Configuration and scheme management.

use keyman::config::AppConfig;
use keyman::i18n::Language;
use keyman::key::VirtualKey;
use keyman::keymap::KeyMap;
use keyman::scheme::KeybindScheme;
use keyman::scheme_file::{check_scheme_version, scheme_file_version, SchemeFileError};

#[test]
fn default_scheme_contents() {
    let s = KeybindScheme::default_dota(Language::En);
    assert_eq!(s.id, "default-dota");
    assert_eq!(s.name, "Scheme 1");
    assert_eq!(KeybindScheme::default_dota(Language::Zh).name, "方案 1");
    assert_eq!(s.inventory_mappings, [None; 6]);
    assert_eq!(s.blocked_keys, vec![VirtualKey::LWin, VirtualKey::RWin]);
    assert_eq!(s.toggle_key, VirtualKey::F12);
    assert!(s.skill_mappings.pairs().is_empty());
    let config = AppConfig::default(Language::En);
    assert_eq!(config.active_scheme_id, "default-dota");
    assert_eq!(config.schemes.len(), 1);
}

#[test]
fn add_then_remove_restores() {
    let mut config = AppConfig::default(Language::En);
    let mut s = KeybindScheme::default_dota(Language::En);
    s.id = "other".to_string();
    config.add_scheme(s);
    assert!(config.remove_scheme("other"));
    assert_eq!(config.schemes.len(), 1);
    assert_eq!(config.schemes[0].id, "default-dota");
    assert!(!config.remove_scheme("other"));
}

#[test]
fn remove_takes_every_scheme_with_the_id() {
    let mut config = AppConfig::default(Language::En);
    config.add_scheme(KeybindScheme::default_dota(Language::En));
    let mut s = KeybindScheme::default_dota(Language::En);
    s.id = "keep".to_string();
    config.add_scheme(s);
    assert!(config.remove_scheme("default-dota"));
    assert_eq!(config.schemes.len(), 1);
    assert_eq!(config.schemes[0].id, "keep");
    // the active id is not touched
    assert_eq!(config.active_scheme_id, "default-dota");
    assert!(config.active_scheme().is_none());
}

#[test]
fn switch_to_unknown_scheme_fails() {
    let mut config = AppConfig::default(Language::En);
    assert!(!config.switch_scheme("missing"));
    assert_eq!(config.active_scheme_id, "default-dota");
    assert!(config.switch_scheme("default-dota"));
    assert_eq!(config.active_scheme().unwrap().id, "default-dota");
}

#[test]
fn key_map_operations() {
    let mut m = KeyMap::new();
    assert_eq!(m.insert(VirtualKey::A, VirtualKey::B), None);
    assert_eq!(m.insert(VirtualKey::A, VirtualKey::C), Some(VirtualKey::B));
    assert_eq!(m.get(&VirtualKey::A), Some(&VirtualKey::C));
    assert!(m.contains_key(&VirtualKey::A));
    assert_eq!(m.pairs().len(), 1);
    m.insert(VirtualKey::D, VirtualKey::E);
    assert_eq!(m.remove(&VirtualKey::A), Some(VirtualKey::C));
    assert_eq!(m.remove(&VirtualKey::A), None);
    assert_eq!(m.get(&VirtualKey::A), None);
    assert_eq!(m.pairs(), vec![(VirtualKey::D, VirtualKey::E)]);
    let copy = m.duplicate();
    m.clear();
    assert!(m.pairs().is_empty());
    assert_eq!(copy.get(&VirtualKey::D), Some(&VirtualKey::E));
}

#[test]
fn scheme_versions() {
    assert_eq!(check_scheme_version(Some(1)), Ok(1));
    assert_eq!(check_scheme_version(Some(999)), Err(SchemeFileError::UnsupportedVersion(999)));
    assert_eq!(check_scheme_version(None), Err(SchemeFileError::UnsupportedVersion(0)));
}

#[test]
fn scheme_file_texts() {
    assert_eq!(scheme_file_version(r#"{"version": 1, "id": "x"}"#), Ok(1));
    assert_eq!(
        scheme_file_version(r#"{"version": 999, "id": "test"}"#),
        Err(SchemeFileError::UnsupportedVersion(999))
    );
    assert_eq!(scheme_file_version(r#"{"id": "test"}"#), Err(SchemeFileError::UnsupportedVersion(0)));
    assert_eq!(scheme_file_version(r#"{"version": "1"}"#), Err(SchemeFileError::UnsupportedVersion(0)));
    assert_eq!(scheme_file_version("{ not valid json }"), Err(SchemeFileError::Malformed));
    assert_eq!(scheme_file_version("[1, 2]"), Err(SchemeFileError::UnsupportedVersion(0)));
}

#[test]
fn test_import_invalid_version() {
    let invalid_content = r#"{
        "version": 999,
        "id": "test",
        "name": "Test",
        "skill_mappings": {},
        "inventory_mappings": [null, null, null, null, null, null],
        "toggle_key": "F12",
        "blocked_keys": []
    }"#;
    let result = scheme_file_version(invalid_content);
    assert!(result.is_err(), "Should reject unsupported version");
    assert_eq!(result, Err(SchemeFileError::UnsupportedVersion(999)));
}

#[test]
fn test_import_missing_version() {
    let invalid_content = r#"{
        "id": "test",
        "name": "Test",
        "skill_mappings": {},
        "inventory_mappings": [null, null, null, null, null, null],
        "toggle_key": "F12",
        "blocked_keys": []
    }"#;
    let result = scheme_file_version(invalid_content);
    assert!(result.is_err(), "Should reject missing version");
    assert_eq!(result, Err(SchemeFileError::UnsupportedVersion(0)));
}

#[test]
fn test_import_malformed_json() {
    let malformed = r#"{ not valid json }"#;
    let result = scheme_file_version(malformed);
    assert!(result.is_err(), "Should reject malformed JSON");
    assert_eq!(result, Err(SchemeFileError::Malformed));
}
