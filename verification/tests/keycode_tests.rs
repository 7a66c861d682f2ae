//! The platform key code tables.

use keyman::hook::HookResult;
use keyman::key::VirtualKey;
use keyman::keycodes::{
    evdev_key_event, evdev_key_to_virtual_key, keycode_to_virtual_key, macos_key_event, virtual_key_to_evdev,
    virtual_key_to_vk_code, vk_code_to_virtual_key, windows_hook_action, windows_key_event, windows_should_handle,
    WindowsHookAction,
};

#[test]
fn macos_codes() {
    assert_eq!(keycode_to_virtual_key(0x00), VirtualKey::A);
    assert_eq!(keycode_to_virtual_key(0x06), VirtualKey::Z);
    assert_eq!(keycode_to_virtual_key(0x59), VirtualKey::Numpad7);
    assert_eq!(keycode_to_virtual_key(0x7A), VirtualKey::F1);
    assert_eq!(keycode_to_virtual_key(0x37), VirtualKey::Command);
    assert_eq!(keycode_to_virtual_key(0x0A), VirtualKey::Unknown(0x0A));
    let e = macos_key_event(0x0C, true);
    assert_eq!(e.key, VirtualKey::Q);
    assert!(e.pressed);
}

#[test]
fn windows_codes() {
    assert_eq!(vk_code_to_virtual_key(0x41), VirtualKey::A);
    assert_eq!(vk_code_to_virtual_key(0x7B), VirtualKey::F12);
    assert_eq!(vk_code_to_virtual_key(0x5B), VirtualKey::LWin);
    assert_eq!(vk_code_to_virtual_key(0x6B), VirtualKey::Unknown(0x6B));
    assert_eq!(virtual_key_to_vk_code(VirtualKey::Numpad7), 0x67);
    assert_eq!(virtual_key_to_vk_code(VirtualKey::Alt), 0x12);
    assert_eq!(virtual_key_to_vk_code(VirtualKey::NumpadEnter), 0x0D);
    assert_eq!(virtual_key_to_vk_code(VirtualKey::LWin), 0);
    assert_eq!(virtual_key_to_vk_code(VirtualKey::Unknown(0x1_0041)), 0x41);
}

#[test]
fn windows_round_trip() {
    for code in 0u32..0x10000 {
        if code == 0x5B || code == 0x5C {
            continue;
        }
        assert_eq!(virtual_key_to_vk_code(vk_code_to_virtual_key(code)) as u32, code);
    }
}

#[test]
fn windows_events_and_actions() {
    assert!(windows_key_event(0x41, 0x0100).pressed);
    assert!(windows_key_event(0x41, 0x0104).pressed);
    assert!(!windows_key_event(0x41, 0x0101).pressed);
    assert!(windows_should_handle(0, 0));
    assert!(!windows_should_handle(-1, 0));
    assert!(!windows_should_handle(0, 0xDEAD_BEEF));
    assert_eq!(windows_hook_action(Some(HookResult::Pass), true), WindowsHookAction::CallNext);
    assert_eq!(windows_hook_action(Some(HookResult::Suppress), true), WindowsHookAction::Block);
    assert_eq!(
        windows_hook_action(Some(HookResult::Replace(VirtualKey::F)), false),
        WindowsHookAction::BlockAndSend(VirtualKey::F, false)
    );
    assert_eq!(windows_hook_action(None, true), WindowsHookAction::CallNext);
}

#[test]
fn evdev_codes() {
    assert_eq!(evdev_key_to_virtual_key(30), VirtualKey::A);
    assert_eq!(evdev_key_to_virtual_key(54), VirtualKey::Shift);
    assert_eq!(evdev_key_to_virtual_key(71), VirtualKey::Numpad7);
    assert_eq!(evdev_key_to_virtual_key(125), VirtualKey::Unknown(125));
    assert_eq!(virtual_key_to_evdev(VirtualKey::Shift), Some(42));
    assert_eq!(virtual_key_to_evdev(VirtualKey::LWin), None);
    assert!(evdev_key_event(30, 1).pressed);
    assert!(!evdev_key_event(30, 0).pressed);
    assert!(!evdev_key_event(30, 2).pressed);
}

#[test]
fn evdev_round_trips() {
    for code in 0u16..=255 {
        let key = evdev_key_to_virtual_key(code);
        if let VirtualKey::Unknown(_) = key {
            continue;
        }
        let expected = match code {
            54 => 42,
            97 => 29,
            100 => 56,
            c => c,
        };
        assert_eq!(virtual_key_to_evdev(key), Some(expected));
    }
    for key in [VirtualKey::A, VirtualKey::Key0, VirtualKey::F11, VirtualKey::NumpadDecimal, VirtualKey::Slash] {
        let code = virtual_key_to_evdev(key).unwrap();
        assert_eq!(evdev_key_to_virtual_key(code), key);
    }
}
