//! Translations, messages and the language setting.

use keyman::i18n::{
    detect_language, init, lang, language_for_ui_language_id, set_lang, t, t_app_title, t_cannot_delete_last,
    t_key_used, t_scheme_exists, t_scheme_name, t_unsupported_key, toggle_label, toggle_lang, Language,
};
use keyman::status::AppStatus;
use keyman::text::{decimal_string, starts_with};

#[test]
fn stored_language_codes() {
    assert_eq!(lang(0), Language::Zh);
    assert_eq!(lang(1), Language::En);
    assert_eq!(lang(7), Language::Zh);
    let mut setting = 0u8;
    set_lang(&mut setting, Language::En);
    assert_eq!(setting, 1);
    assert_eq!(lang(setting), Language::En);
}

#[test]
fn toggle_twice_restores() {
    let mut setting = 0u8;
    assert_eq!(toggle_lang(&mut setting), Language::En);
    assert_eq!(toggle_lang(&mut setting), Language::Zh);
    assert_eq!(lang(setting), Language::Zh);
}

#[test]
fn label_offers_other_language() {
    assert_eq!(toggle_label(Language::Zh), "EN");
    assert_eq!(toggle_label(Language::En), "中文");
}

#[test]
fn translations() {
    assert_eq!(t(Language::Zh, "scheme"), "方案:");
    assert_eq!(t(Language::En, "scheme"), "Scheme:");
    assert_eq!(t(Language::En, "confirm"), "OK");
    assert_eq!(t(Language::Zh, "no_active_scheme"), "无活动方案");
    assert_eq!(t(Language::En, "f12_toggle"), "(F12 Toggle)");
    assert_eq!(t(Language::En, "unknown"), "");
    assert_eq!(t(Language::Zh, ""), "");
}

#[test]
fn same_keys_in_both_languages() {
    for key in ["scheme", "new", "delete", "inv_slot", "paused", "nothing", "Scheme"] {
        assert_eq!(t(Language::Zh, key).is_empty(), t(Language::En, key).is_empty(), "{}", key);
    }
}

#[test]
fn messages() {
    assert_eq!(t_key_used(Language::En, "Q"), "Key Q is already in use");
    assert_eq!(t_key_used(Language::Zh, "Q"), "按键 Q 已被使用，请选择其他按键");
    assert_eq!(t_cannot_delete_last(Language::En), "Cannot delete the last scheme");
    assert_eq!(t_scheme_exists(Language::En, "A"), "Scheme name \"A\" already exists");
    assert_eq!(t_scheme_exists(Language::Zh, "A"), "方案名 \"A\" 已存在");
    assert_eq!(t_unsupported_key(Language::En, "f13"), "Unsupported key: f13");
    assert_eq!(t_app_title(Language::Zh), "键盘侠 (Keyman)");
    assert_eq!(t_app_title(Language::En), "Keyman");
}

#[test]
fn scheme_names_are_numbered() {
    assert_eq!(t_scheme_name(Language::En, 1), "Scheme 1");
    assert_eq!(t_scheme_name(Language::Zh, 12), "方案 12");
    assert_eq!(t_scheme_name(Language::En, 0), "Scheme 0");
}

#[test]
fn decimal_representation() {
    assert_eq!(decimal_string(0), "0");
    assert_eq!(decimal_string(9), "9");
    assert_eq!(decimal_string(10), "10");
    assert_eq!(decimal_string(9999), "9999");
    assert_eq!(decimal_string(u64::MAX), u64::MAX.to_string());
}

#[test]
fn prefixes() {
    assert!(starts_with("zh_CN.UTF-8", "zh"));
    assert!(!starts_with("en_US", "zh"));
    assert!(!starts_with("z", "zh"));
    assert!(starts_with("x", ""));
}

#[test]
fn language_detection() {
    assert_eq!(detect_language(Some("zh_CN.UTF-8"), None), Language::Zh);
    assert_eq!(detect_language(Some("en_US.UTF-8"), None), Language::En);
    assert_eq!(detect_language(None, None), Language::En);
    assert_eq!(detect_language(Some("en_US"), Some("zh_Hans_CN")), Language::Zh);
    assert_eq!(detect_language(Some("C"), Some("en_GB")), Language::En);
    assert_eq!(language_for_ui_language_id(0x0804), Language::Zh);
    assert_eq!(language_for_ui_language_id(0x0404), Language::Zh);
    assert_eq!(language_for_ui_language_id(0x0409), Language::En);
    let mut setting = 1u8;
    init(&mut setting, Some("zh_TW"), None);
    assert_eq!(lang(setting), Language::Zh);
}

#[test]
fn status_labels() {
    assert_eq!(AppStatus::Enabled.label(Language::En), "Enabled");
    assert_eq!(AppStatus::InGame.label(Language::Zh), "游戏中");
    assert_eq!(AppStatus::Paused.label(Language::En), "Paused");
}
