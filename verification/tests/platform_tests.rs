//! Tests of the keyboard hook types: keys, key events and hook results.

use keyman::event::RawKeyEvent;
use keyman::hook::HookResult;
use keyman::key::VirtualKey;
use keyman::WindowsKeyboardHook;

/// Test: Creating a WindowsKeyboardHook succeeds
#[test]
fn platform_tests_test_create_hook() {
    let _hook = WindowsKeyboardHook::new();
    // Just verify creation works
    assert!(true);
}

#[test]
fn test_letter_keys() {
    // Verify all letter keys exist and are distinct
    assert_ne!(VirtualKey::A, VirtualKey::B);
    assert_ne!(VirtualKey::Q, VirtualKey::W);
}

#[test]
fn test_numpad_keys() {
    assert_ne!(VirtualKey::Numpad0, VirtualKey::Key0);
    assert_ne!(VirtualKey::Numpad7, VirtualKey::Key7);
}

#[test]
fn test_unknown_key() {
    let unknown = VirtualKey::Unknown(9999);
    match unknown {
        VirtualKey::Unknown(code) => assert_eq!(code, 9999),
        _ => panic!("Expected Unknown variant"),
    }
}

#[test]
fn test_key_equality() {
    assert_eq!(VirtualKey::A, VirtualKey::A);
    assert_eq!(VirtualKey::Numpad7, VirtualKey::Numpad7);
}

#[test]
fn test_key_press_event() {
    let event = RawKeyEvent {
        key: VirtualKey::A,
        pressed: true,
    };

    assert_eq!(event.key, VirtualKey::A);
    assert!(event.pressed);
}

#[test]
fn test_key_release_event() {
    let event = RawKeyEvent {
        key: VirtualKey::Space,
        pressed: false,
    };

    assert_eq!(event.key, VirtualKey::Space);
    assert!(!event.pressed);
}

#[test]
fn test_hook_result_pass() {
    let result: HookResult = HookResult::Pass;
    match result {
        HookResult::Pass => assert!(true),
        _ => panic!("Expected Pass"),
    }
}

#[test]
fn test_hook_result_suppress() {
    let result: HookResult = HookResult::Suppress;
    match result {
        HookResult::Suppress => assert!(true),
        _ => panic!("Expected Suppress"),
    }
}

#[test]
fn test_hook_result_replace() {
    let result = HookResult::Replace(VirtualKey::Q);
    match result {
        HookResult::Replace(key) => assert_eq!(key, VirtualKey::Q),
        _ => panic!("Expected Replace"),
    }
}
