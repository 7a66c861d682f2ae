//! Concrete cases of the remapping engine's laws.

use std::sync::{Arc, Mutex};
use keyman::engine::{inventory_numpad_key, RemappingEngine};
use keyman::config::AppConfig;
use keyman::editor::{CaptureTarget, Editor, EditorEffect};
use keyman::event::RawKeyEvent;
use keyman::hook::HookResult;
use keyman::i18n::Language;
use keyman::key::VirtualKey;
use keyman::monitor::GameState;
use keyman::scheme::KeybindScheme;

fn shared(running: bool, focused: bool) -> Arc<Mutex<GameState>> {
    Arc::new(Mutex::new(GameState { running, focused, pid: Some(7) }))
}

fn scheme_with_id(id: &str) -> KeybindScheme {
    let mut s = KeybindScheme::default_dota(Language::En);
    s.id = id.to_string();
    s
}

fn press(key: VirtualKey) -> RawKeyEvent {
    RawKeyEvent { key, pressed: true }
}

fn release(key: VirtualKey) -> RawKeyEvent {
    RawKeyEvent { key, pressed: false }
}

#[test]
fn inactive_game_passes_everything() {
    let mut engine = RemappingEngine::new(shared(true, false));
    let mut s = scheme_with_id("a");
    s.skill_mappings.insert(VirtualKey::Q, VirtualKey::W);
    engine.set_schemes(vec![s], "a");
    assert_eq!(engine.process_event(&press(VirtualKey::F12)), HookResult::Pass);
    assert!(!engine.is_paused());
    assert_eq!(engine.process_event(&press(VirtualKey::Q)), HookResult::Pass);
    assert_eq!(engine.process_event(&press(VirtualKey::LWin)), HookResult::Pass);
}

#[test]
fn handle_event_follows_given_activity() {
    let mut engine = RemappingEngine::new(shared(false, false));
    let mut s = scheme_with_id("a");
    s.skill_mappings.insert(VirtualKey::Q, VirtualKey::W);
    engine.set_schemes(vec![s], "a");
    assert_eq!(engine.handle_event(true, &press(VirtualKey::Q)), HookResult::Replace(VirtualKey::W));
    assert_eq!(engine.handle_event(false, &release(VirtualKey::Q)), HookResult::Pass);
    assert_eq!(engine.handle_event(true, &release(VirtualKey::Q)), HookResult::Replace(VirtualKey::W));
}

#[test]
fn release_follows_press_and_then_forgets() {
    let mut engine = RemappingEngine::new(shared(true, true));
    let mut s = scheme_with_id("a");
    s.skill_mappings.insert(VirtualKey::D, VirtualKey::F);
    engine.set_schemes(vec![s], "a");
    assert_eq!(engine.process_event(&press(VirtualKey::D)), HookResult::Replace(VirtualKey::F));
    assert_eq!(engine.process_event(&release(VirtualKey::D)), HookResult::Replace(VirtualKey::F));
    // the release forgot the replacement
    assert_eq!(engine.process_event(&release(VirtualKey::D)), HookResult::Pass);
}

#[test]
fn skill_mapping_wins_over_inventory() {
    let mut engine = RemappingEngine::new(shared(true, true));
    let mut s = scheme_with_id("a");
    s.skill_mappings.insert(VirtualKey::Z, VirtualKey::X);
    s.inventory_mappings[2] = Some(VirtualKey::Z);
    engine.set_schemes(vec![s], "a");
    assert_eq!(engine.process_event(&press(VirtualKey::Z)), HookResult::Replace(VirtualKey::X));
}

#[test]
fn first_inventory_slot_wins() {
    let mut engine = RemappingEngine::new(shared(true, true));
    let mut s = scheme_with_id("a");
    s.inventory_mappings[5] = Some(VirtualKey::C);
    s.inventory_mappings[3] = Some(VirtualKey::C);
    engine.set_schemes(vec![s], "a");
    assert_eq!(engine.process_event(&press(VirtualKey::C)), HookResult::Replace(VirtualKey::Numpad5));
}

#[test]
fn inventory_slots_use_warcraft_numpad_layout() {
    let expected = [
        VirtualKey::Numpad7,
        VirtualKey::Numpad8,
        VirtualKey::Numpad4,
        VirtualKey::Numpad5,
        VirtualKey::Numpad1,
        VirtualKey::Numpad2,
    ];
    for (slot, key) in expected.iter().enumerate() {
        assert_eq!(inventory_numpad_key(slot), *key);
    }
}

#[test]
fn paused_passes_mapped_keys() {
    let mut engine = RemappingEngine::new(shared(true, true));
    let mut s = scheme_with_id("a");
    s.skill_mappings.insert(VirtualKey::Q, VirtualKey::W);
    engine.set_schemes(vec![s], "a");
    assert_eq!(engine.process_event(&press(VirtualKey::F12)), HookResult::Suppress);
    assert_eq!(engine.process_event(&press(VirtualKey::Q)), HookResult::Pass);
    // F12 released is not a toggle
    assert_eq!(engine.process_event(&release(VirtualKey::F12)), HookResult::Pass);
    assert!(engine.is_paused());
}

#[test]
fn f11_cycles_through_all_schemes() {
    let mut engine = RemappingEngine::new(shared(true, true));
    engine.set_schemes(vec![scheme_with_id("a"), scheme_with_id("b"), scheme_with_id("c")], "b");
    assert_eq!(engine.active_scheme_id(), Some("b"));
    assert_eq!(engine.process_event(&press(VirtualKey::F11)), HookResult::Suppress);
    assert_eq!(engine.active_scheme_id(), Some("c"));
    engine.process_event(&press(VirtualKey::F11));
    assert_eq!(engine.active_scheme_id(), Some("a"));
    engine.process_event(&press(VirtualKey::F11));
    assert_eq!(engine.active_scheme_id(), Some("b"));
}

#[test]
fn f11_with_one_scheme_stays() {
    let mut engine = RemappingEngine::new(shared(true, true));
    engine.set_schemes(vec![scheme_with_id("only")], "only");
    assert_eq!(engine.process_event(&press(VirtualKey::F11)), HookResult::Suppress);
    assert_eq!(engine.active_scheme_id(), Some("only"));
}

#[test]
fn f11_forgets_pressed_replacements() {
    let mut engine = RemappingEngine::new(shared(true, true));
    let mut a = scheme_with_id("a");
    a.skill_mappings.insert(VirtualKey::Q, VirtualKey::W);
    engine.set_schemes(vec![a, scheme_with_id("b")], "a");
    assert_eq!(engine.process_event(&press(VirtualKey::Q)), HookResult::Replace(VirtualKey::W));
    engine.process_event(&press(VirtualKey::F11));
    assert_eq!(engine.process_event(&release(VirtualKey::Q)), HookResult::Pass);
}

#[test]
fn unknown_active_id_selects_first_scheme() {
    let mut engine = RemappingEngine::new(shared(true, true));
    engine.set_schemes(vec![scheme_with_id("a"), scheme_with_id("b")], "zzz");
    assert_eq!(engine.active_scheme_id(), Some("a"));
    engine.set_active_scheme("b");
    assert_eq!(engine.active_scheme_id(), Some("b"));
    engine.set_active_scheme("nope");
    assert_eq!(engine.active_scheme_id(), Some("b"));
}

#[test]
fn duplicate_ids_select_first() {
    let mut engine = RemappingEngine::new(shared(true, true));
    let mut second = scheme_with_id("x");
    second.skill_mappings.insert(VirtualKey::A, VirtualKey::B);
    engine.set_schemes(vec![scheme_with_id("x"), second], "x");
    // the first "x" has no mapping for A
    assert_eq!(engine.process_event(&press(VirtualKey::A)), HookResult::Pass);
}

#[test]
fn empty_engine_has_no_active_scheme() {
    let mut engine = RemappingEngine::new(shared(true, true));
    assert_eq!(engine.active_scheme_id(), None);
    assert_eq!(engine.process_event(&press(VirtualKey::A)), HookResult::Pass);
    assert_eq!(engine.take_scheme_change(), None);
}

#[test]
fn set_active_scheme_forgets_replacements() {
    let mut engine = RemappingEngine::new(shared(true, true));
    let mut a = scheme_with_id("a");
    a.skill_mappings.insert(VirtualKey::Q, VirtualKey::W);
    engine.set_schemes(vec![a, scheme_with_id("b")], "a");
    engine.process_event(&press(VirtualKey::Q));
    engine.set_active_scheme("a");
    assert_eq!(engine.process_event(&release(VirtualKey::Q)), HookResult::Pass);
}

#[test]
fn captured_skill_is_remapped_by_the_engine() {
    let mut editor = Editor::new(AppConfig::default(Language::En));
    editor.start_capture(CaptureTarget::SkillTarget(VirtualKey::R));
    assert_eq!(editor.apply_key(VirtualKey::T, Language::En), EditorEffect::SaveAndSync);
    let mut engine = RemappingEngine::new(shared(true, true));
    let active_id = editor.config.active_scheme_id.clone();
    engine.set_schemes(editor.config.schemes.clone(), &active_id);
    assert_eq!(engine.handle_event(true, &press(VirtualKey::R)), HookResult::Replace(VirtualKey::T));
    assert_eq!(engine.handle_event(true, &release(VirtualKey::R)), HookResult::Replace(VirtualKey::T));
}

#[test]
fn release_after_pause_is_still_replaced() {
    let mut engine = RemappingEngine::new(shared(true, true));
    let mut a = scheme_with_id("a");
    a.skill_mappings.insert(VirtualKey::Q, VirtualKey::W);
    engine.set_schemes(vec![a], "a");
    assert_eq!(engine.process_event(&press(VirtualKey::Q)), HookResult::Replace(VirtualKey::W));
    assert_eq!(engine.process_event(&press(VirtualKey::F12)), HookResult::Suppress);
    assert!(engine.is_paused());
    assert_eq!(engine.process_event(&release(VirtualKey::Q)), HookResult::Replace(VirtualKey::W));
    assert_eq!(engine.process_event(&release(VirtualKey::Q)), HookResult::Pass);
}

#[test]
fn f11_switch_is_reported_once() {
    let mut engine = RemappingEngine::new(shared(true, true));
    let a = KeybindScheme::default_dota(Language::En);
    let mut b = a.clone();
    b.id = "scheme-2".to_string();
    engine.set_schemes(vec![a, b], "default-dota");
    assert_eq!(engine.process_event(&press(VirtualKey::F11)), HookResult::Suppress);
    assert_eq!(engine.take_scheme_change(), Some("scheme-2".to_string()));
    assert_eq!(engine.take_scheme_change(), None);
    engine.process_event(&press(VirtualKey::F11));
    assert_eq!(engine.take_scheme_change(), Some("default-dota".to_string()));
}

#[test]
fn f11_without_schemes() {
    let mut engine = RemappingEngine::new(shared(true, false));
    assert_eq!(engine.process_event(&press(VirtualKey::F11)), HookResult::Pass);
    let mut engine = RemappingEngine::new(shared(true, true));
    assert_eq!(engine.process_event(&press(VirtualKey::F11)), HookResult::Suppress);
    assert_eq!(engine.take_scheme_change(), None);
}
