//! The editing steps of the configuration window.

use keyman::config::AppConfig;
use keyman::editor::{CaptureTarget, Editor, EditorEffect, RenameOutcome};
use keyman::i18n::Language;
use keyman::key::VirtualKey;
use keyman::labels::{format_key, parse_key_from_string, parse_key_name};
use keyman::scheme::KeybindScheme;
use keyman::keymap::KeyMap;
use keyman::sorting::{less_text, sorted_pairs};
use keyman::text::{str_eq, trim};

fn editor() -> Editor {
    Editor::new(AppConfig::default(Language::En))
}

fn active(e: &Editor) -> &KeybindScheme {
    e.config.active_scheme().unwrap()
}

#[test]
fn key_labels() {
    assert_eq!(format_key(&VirtualKey::A), "A");
    assert_eq!(format_key(&VirtualKey::Key3), "3");
    assert_eq!(format_key(&VirtualKey::Escape), "Esc");
    assert_eq!(format_key(&VirtualKey::Numpad7), "Num7");
    assert_eq!(format_key(&VirtualKey::F11), "F11");
    assert_eq!(format_key(&VirtualKey::LeftBracket), "LeftBracket");
    assert_eq!(format_key(&VirtualKey::Unknown(42)), "Unknown(42)");
    assert_eq!(format_key(&VirtualKey::F5), format!("{:?}", VirtualKey::F5));
}

#[test]
fn key_names() {
    assert_eq!(parse_key_name("q"), Some(VirtualKey::Q));
    assert_eq!(parse_key_name("Q"), None);
    assert_eq!(parse_key_from_string("Q"), Some(VirtualKey::Q));
    assert_eq!(parse_key_from_string("SPACE"), Some(VirtualKey::Space));
    assert_eq!(parse_key_from_string("7"), Some(VirtualKey::Key7));
    assert_eq!(parse_key_from_string("f1"), None);
    assert_eq!(parse_key_from_string(""), None);
}

#[test]
fn capture_new_skill_row() {
    let mut e = editor();
    e.start_capture(CaptureTarget::NewSkillSource);
    assert_eq!(e.handle_capture_key("Q", Language::En), EditorEffect::Nothing);
    assert_eq!(e.pending_skill, (Some(VirtualKey::Q), None));
    e.start_capture(CaptureTarget::NewSkillTarget);
    assert_eq!(e.apply_key(VirtualKey::W, Language::En), EditorEffect::SaveAndSync);
    assert_eq!(e.pending_skill, (None, None));
    assert_eq!(active(&e).skill_mappings.get(&VirtualKey::Q), Some(&VirtualKey::W));
    assert!(e.capturing.is_none());
}

#[test]
fn clashing_key_is_refused() {
    let mut e = editor();
    e.config.active_scheme_mut().unwrap().skill_mappings.insert(VirtualKey::Q, VirtualKey::W);
    e.start_capture(CaptureTarget::Inventory(0));
    assert!(e.is_key_used(VirtualKey::W, &CaptureTarget::Inventory(0)));
    assert_eq!(e.apply_key(VirtualKey::W, Language::En), EditorEffect::Nothing);
    assert_eq!(e.error_msg.as_deref(), Some("Key W is already in use"));
    assert_eq!(active(&e).inventory_mappings[0], None);
    assert_eq!(e.capturing, Some(CaptureTarget::Inventory(0)));
    // a new target never clashes
    assert!(!e.is_key_used(VirtualKey::Q, &CaptureTarget::NewSkillTarget));
    // the mapping being changed does not clash with itself
    assert!(!e.is_key_used(VirtualKey::W, &CaptureTarget::SkillTarget(VirtualKey::Q)));
}

#[test]
fn recapture_moves_and_clears() {
    let mut e = editor();
    e.config.active_scheme_mut().unwrap().skill_mappings.insert(VirtualKey::Q, VirtualKey::W);
    e.start_capture(CaptureTarget::SkillSource { old_source: VirtualKey::Q, old_target: VirtualKey::W });
    assert_eq!(e.apply_key(VirtualKey::E, Language::En), EditorEffect::SaveAndSync);
    assert_eq!(active(&e).skill_mappings.get(&VirtualKey::Q), None);
    assert_eq!(active(&e).skill_mappings.get(&VirtualKey::E), Some(&VirtualKey::W));
    e.start_capture(CaptureTarget::SkillTarget(VirtualKey::E));
    assert_eq!(e.handle_capture_key("Backspace", Language::En), EditorEffect::SaveAndSync);
    assert_eq!(active(&e).skill_mappings.get(&VirtualKey::E), None);
    assert!(e.capturing.is_none());
}

#[test]
fn inventory_capture_and_clear() {
    let mut e = editor();
    e.start_capture(CaptureTarget::Inventory(2));
    assert_eq!(e.handle_capture_key("z", Language::En), EditorEffect::SaveAndSync);
    assert_eq!(active(&e).inventory_mappings[2], Some(VirtualKey::Z));
    e.start_capture(CaptureTarget::Inventory(2));
    assert_eq!(e.handle_capture_key("Delete", Language::En), EditorEffect::SaveAndSync);
    assert_eq!(active(&e).inventory_mappings[2], None);
}

#[test]
fn escape_and_unsupported_keys() {
    let mut e = editor();
    e.start_capture(CaptureTarget::Inventory(1));
    assert_eq!(e.handle_capture_key("F13", Language::En), EditorEffect::Nothing);
    assert_eq!(e.error_msg.as_deref(), Some("Unsupported key: f13"));
    assert_eq!(e.handle_capture_key("Escape", Language::En), EditorEffect::Nothing);
    assert!(e.capturing.is_none());
    assert!(e.error_msg.is_none());
    // nothing captured: keys are ignored
    assert_eq!(e.handle_capture_key("a", Language::En), EditorEffect::Nothing);
}

#[test]
fn delete_scheme_rules() {
    let mut e = editor();
    assert_eq!(e.delete_scheme("default-dota", Language::En), EditorEffect::Nothing);
    assert_eq!(e.error_msg.as_deref(), Some("Cannot delete the last scheme"));
    assert_eq!(e.config.schemes.len(), 1);
    assert_eq!(e.new_scheme(Language::En), EditorEffect::SaveAndSync);
    assert_eq!(e.config.active_scheme_id, "scheme-2");
    assert_eq!(e.delete_scheme("scheme-2", Language::En), EditorEffect::SaveAndActivate);
    assert_eq!(e.config.active_scheme_id, "default-dota");
    assert_eq!(e.config.schemes.len(), 1);
}

#[test]
fn new_scheme_gets_a_free_name() {
    let mut e = editor();
    // "Scheme 2" and "Scheme 3" are taken
    e.config.active_scheme_mut().unwrap().name = "Scheme 2".to_string();
    let mut s = KeybindScheme::default_dota(Language::En);
    s.id = "x".to_string();
    s.name = "Scheme 3".to_string();
    e.config.add_scheme(s);
    e.new_scheme(Language::En);
    let added = e.config.schemes.last().unwrap();
    assert_eq!(added.id, "scheme-3");
    assert_eq!(added.name, "Scheme 4");
    assert_eq!(e.config.active_scheme_id, "scheme-3");
}

#[test]
fn rename_rules() {
    let mut e = editor();
    e.new_scheme(Language::En);
    assert_eq!(e.start_rename("scheme-2".to_string()), Some("Scheme 2".to_string()));
    assert_eq!(e.confirm_rename("  Scheme 1 ", Language::En), RenameOutcome::Rejected);
    assert_eq!(e.error_msg.as_deref(), Some("Scheme name \"Scheme 1\" already exists"));
    assert_eq!(e.editing_scheme_id.as_deref(), Some("scheme-2"));
    assert_eq!(e.confirm_rename("  Rush  ", Language::En), RenameOutcome::Renamed);
    assert_eq!(e.config.schemes[1].name, "Rush");
    assert!(e.editing_scheme_id.is_none());
    e.start_rename("scheme-2".to_string());
    assert_eq!(e.confirm_rename("   ", Language::En), RenameOutcome::Unchanged);
    assert_eq!(e.config.schemes[1].name, "Rush");
    assert_eq!(e.confirm_rename("Other", Language::En), RenameOutcome::Unchanged);
    e.start_rename("missing".to_string());
    e.cancel_rename();
    assert!(e.editing_scheme_id.is_none());
}

#[test]
fn sync_from_engine() {
    let mut e = editor();
    assert!(!e.sync_active_from_engine(None));
    assert!(!e.sync_active_from_engine(Some("default-dota")));
    assert!(e.sync_active_from_engine(Some("other")));
    assert_eq!(e.config.active_scheme_id, "other");
}

#[test]
fn rename_open_blocks_capture_keys() {
    let mut e = editor();
    e.start_capture(CaptureTarget::Inventory(0));
    e.start_rename("default-dota".to_string());
    assert_eq!(e.handle_capture_key("a", Language::En), EditorEffect::Nothing);
    assert_eq!(active(&e).inventory_mappings[0], None);
}

#[test]
fn skill_rows_sorted_by_name() {
    let mut m = KeyMap::new();
    m.insert(VirtualKey::Q, VirtualKey::W);
    m.insert(VirtualKey::F1, VirtualKey::A);
    m.insert(VirtualKey::Unknown(5), VirtualKey::B);
    m.insert(VirtualKey::A, VirtualKey::C);
    m.insert(VirtualKey::F10, VirtualKey::D);
    let rows = sorted_pairs(&m);
    let keys: Vec<VirtualKey> = rows.iter().map(|(k, _)| *k).collect();
    assert_eq!(keys, vec![VirtualKey::A, VirtualKey::F1, VirtualKey::F10, VirtualKey::Q, VirtualKey::Unknown(5)]);
    assert_eq!(rows[3], (VirtualKey::Q, VirtualKey::W));
    assert!(less_text("F1", "F10"));
    assert!(!less_text("F10", "F1"));
    assert!(less_text("", "a"));
    assert!(!less_text("a", "a"));
    assert!(less_text("Z", "a"));
}

#[test]
fn block_win_box() {
    let mut e = editor();
    assert_eq!(e.set_block_win(false), EditorEffect::SaveAndSync);
    assert!(active(&e).blocked_keys.is_empty());
    e.set_block_win(true);
    assert_eq!(active(&e).blocked_keys, vec![VirtualKey::LWin, VirtualKey::RWin]);
    e.config.active_scheme_mut().unwrap().blocked_keys = vec![VirtualKey::RWin, VirtualKey::Tab];
    e.set_block_win(true);
    assert_eq!(active(&e).blocked_keys, vec![VirtualKey::RWin, VirtualKey::Tab, VirtualKey::LWin]);
    e.set_block_win(false);
    assert_eq!(active(&e).blocked_keys, vec![VirtualKey::Tab]);
}

#[test]
fn new_scheme_id_never_repeats() {
    let mut e = editor();
    let mut s = KeybindScheme::default_dota(Language::En);
    s.id = "scheme-3".to_string();
    s.name = "Other".to_string();
    e.config.add_scheme(s);
    assert_eq!(e.new_scheme(Language::En), EditorEffect::SaveAndSync);
    let added = e.config.schemes.last().unwrap();
    assert_eq!(added.id, "scheme-4");
    assert_eq!(added.name, "Scheme 3");
    assert_eq!(e.config.active_scheme_id, "scheme-4");
}

#[test]
fn lowered_key_names() {
    let mut e = editor();
    e.start_capture(CaptureTarget::Inventory(3));
    assert_eq!(e.handle_lowered_key("x", Language::En), EditorEffect::SaveAndSync);
    assert_eq!(active(&e).inventory_mappings[3], Some(VirtualKey::X));
    e.start_capture(CaptureTarget::Inventory(3));
    assert_eq!(e.handle_lowered_key("backspace", Language::En), EditorEffect::SaveAndSync);
    assert_eq!(active(&e).inventory_mappings[3], None);
    e.start_capture(CaptureTarget::Inventory(3));
    assert_eq!(e.handle_lowered_key("escape", Language::En), EditorEffect::Nothing);
    assert!(e.capturing.is_none());
    e.start_capture(CaptureTarget::Inventory(3));
    assert_eq!(e.handle_lowered_key("f13", Language::En), EditorEffect::Nothing);
    assert_eq!(e.error_msg.as_deref(), Some("Unsupported key: f13"));
}

#[test]
fn trim_and_compare_texts() {
    for s in ["  Rush  ", "\u{3000}Rush\t\n", "Ru sh", "   ", "", "\u{2009}a\u{85}", "x\u{200B}"] {
        assert_eq!(trim(s), s.trim());
    }
    assert!(str_eq("Scheme 1", "Scheme 1"));
    assert!(!str_eq("Scheme 1", "Scheme 10"));
    assert!(!str_eq("ab", "ba"));
    assert!(str_eq("", ""));
}
