use vstd::prelude::*;
use crate::text::{decimal, decimal_string, str_eq, starts_with};

verus! {

/// A language of the user interface.
#[derive(Clone, Copy, PartialEq, Eq, Debug, Structural)]
pub enum Language {
    Zh,
    En,
}

/// The number under which a language is stored in the language setting.
pub open spec fn language_code(lang: Language) -> u8 {
    match lang {
        Language::Zh => 0,
        Language::En => 1,
    }
}

/// The language that a stored number stands for: 1 is English, anything
/// else Chinese.
pub open spec fn language_of_code(code: u8) -> Language {
    if code == 1 {
        Language::En
    } else {
        Language::Zh
    }
}

/// The other language.
pub open spec fn other_language(lang: Language) -> Language {
    match lang {
        Language::Zh => Language::En,
        Language::En => Language::Zh,
    }
}

/// The language chosen from the user's locale settings: Chinese when the
/// `LANG` setting, or else the system locale, starts with "zh".
pub open spec fn detected_language(lang_env: Option<Seq<char>>, system_locale: Option<Seq<char>>) -> Language {
    if (lang_env matches Some(l) && "zh"@.is_prefix_of(l))
        || (system_locale matches Some(l) && "zh"@.is_prefix_of(l)) {
        Language::Zh
    } else {
        Language::En
    }
}

/// The language of a Windows UI language identifier: Chinese when its
/// primary language (the low ten bits) is 0x04.
pub open spec fn language_of_ui_language_id(lang_id: u16) -> Language {
    if lang_id & 0x3FF == 0x04 {
        Language::Zh
    } else {
        Language::En
    }
}

/// Encodes a language as the number stored for it.
pub fn code_of_language(lang: Language) -> (r: u8)
    ensures
        r == language_code(lang),
{
    match lang {
        Language::Zh => 0,
        Language::En => 1,
    }
}

/// The current language, given the stored language number.
pub fn lang(code: u8) -> (r: Language)
    ensures
        r == language_of_code(code),
{
    match code {
        1 => Language::En,
        _ => Language::Zh,
    }
}

/// Stores `lang` as the current language.
pub fn set_lang(setting: &mut u8, lang: Language)
    ensures
        *final(setting) == language_code(lang),
        language_of_code(*final(setting)) == lang,
{
    *setting = code_of_language(lang);
}

/// Switches the stored language to the other one and returns the new
/// language.
pub fn toggle_lang(setting: &mut u8) -> (r: Language)
    ensures
        r == other_language(language_of_code(*old(setting))),
        *final(setting) == language_code(r),
{
    let current = lang(*setting);
    let next = match current {
        Language::Zh => Language::En,
        Language::En => Language::Zh,
    };
    *setting = code_of_language(next);
    next
}

/// Chooses the language from the locale settings (see
/// `detected_language`).
pub fn detect_language(lang_env: Option<&str>, system_locale: Option<&str>) -> (r: Language)
    ensures
        r == detected_language(
            match lang_env { Some(l) => Some(l@), None => None },
            match system_locale { Some(l) => Some(l@), None => None },
        ),
{
    if let Some(l) = lang_env {
        if starts_with(l, "zh") {
            return Language::Zh;
        }
    }
    if let Some(l) = system_locale {
        if starts_with(l, "zh") {
            return Language::Zh;
        }
    }
    Language::En
}

/// Chooses the language from a Windows UI language identifier.
pub fn language_for_ui_language_id(lang_id: u16) -> (r: Language)
    ensures
        r == language_of_ui_language_id(lang_id),
{
    let primary = lang_id & 0x3FF;
    if primary == 0x04 {
        Language::Zh
    } else {
        Language::En
    }
}

/// Stores the language detected from the locale settings.
pub fn init(setting: &mut u8, lang_env: Option<&str>, system_locale: Option<&str>)
    ensures
        *final(setting) == language_code(
            detected_language(
                match lang_env { Some(l) => Some(l@), None => None },
                match system_locale { Some(l) => Some(l@), None => None },
            ),
        ),
{
    let detected = detect_language(lang_env, system_locale);
    *setting = code_of_language(detected);
}

/// The label of the language button: the name of the other language.
pub open spec fn toggle_label_text(lang: Language) -> Seq<char> {
    match lang {
        Language::Zh => "EN"@,
        Language::En => "中文"@,
    }
}

/// Label to show on the language button (it names the other language).
pub fn toggle_label(lang: Language) -> (r: &'static str)
    ensures
        r@ == toggle_label_text(lang),
{
    match lang {
        Language::Zh => "EN",
        Language::En => "中文",
    }
}

/// The Chinese text of a user interface key; empty for an unknown key.
pub open spec fn zh_text(key: Seq<char>) -> Seq<char> {
    if key == "scheme"@ {
        "方案:"@
    } else if key == "new"@ {
        "新建"@
    } else if key == "delete"@ {
        "删除"@
    } else if key == "rename"@ {
        "重命名"@
    } else if key == "rename_scheme"@ {
        "重命名方案"@
    } else if key == "cancel"@ {
        "取消"@
    } else if key == "confirm"@ {
        "确定"@
    } else if key == "skill"@ {
        "技能"@
    } else if key == "inventory"@ {
        "物品栏"@
    } else if key == "key"@ {
        "按键"@
    } else if key == "map_to"@ {
        "映射到"@
    } else if key == "inv_slot"@ {
        "物品栏"@
    } else if key == "block_win"@ {
        "屏蔽 Win 键"@
    } else if key == "f11_switch"@ {
        "F11 切换方案"@
    } else if key == "f12_pause"@ {
        "F12 暂停改键"@
    } else if key == "f12_toggle"@ {
        "(F12 切换)"@
    } else if key == "enabled"@ {
        "已启用"@
    } else if key == "in_game"@ {
        "游戏中"@
    } else if key == "paused"@ {
        "已暂停"@
    } else if key == "no_active_scheme"@ {
        "无活动方案"@
    } else {
        ""@
    }
}

/// The English text of a user interface key; empty for an unknown key.
pub open spec fn en_text(key: Seq<char>) -> Seq<char> {
    if key == "scheme"@ {
        "Scheme:"@
    } else if key == "new"@ {
        "New"@
    } else if key == "delete"@ {
        "Delete"@
    } else if key == "rename"@ {
        "Rename"@
    } else if key == "rename_scheme"@ {
        "Rename Scheme"@
    } else if key == "cancel"@ {
        "Cancel"@
    } else if key == "confirm"@ {
        "OK"@
    } else if key == "skill"@ {
        "Skills"@
    } else if key == "inventory"@ {
        "Inventory"@
    } else if key == "key"@ {
        "Key"@
    } else if key == "map_to"@ {
        "Map To"@
    } else if key == "inv_slot"@ {
        "Slot"@
    } else if key == "block_win"@ {
        "Block Win Key"@
    } else if key == "f11_switch"@ {
        "F11 Switch Scheme"@
    } else if key == "f12_pause"@ {
        "F12 Pause Remap"@
    } else if key == "f12_toggle"@ {
        "(F12 Toggle)"@
    } else if key == "enabled"@ {
        "Enabled"@
    } else if key == "in_game"@ {
        "In Game"@
    } else if key == "paused"@ {
        "Paused"@
    } else if key == "no_active_scheme"@ {
        "No active scheme"@
    } else {
        ""@
    }
}

/// The text of a user interface key in a language.
pub open spec fn ui_text(lang: Language, key: Seq<char>) -> Seq<char> {
    match lang {
        Language::Zh => zh_text(key),
        Language::En => en_text(key),
    }
}

/// The text of a user interface key in the given language; an unknown key
/// gives the empty string.
pub fn t(lang: Language, key: &str) -> (r: &'static str)
    ensures
        r@ == ui_text(lang, key@),
{
    match lang {
        Language::Zh => {
            if str_eq(key, "scheme") {
                "方案:"
            } else if str_eq(key, "new") {
                "新建"
            } else if str_eq(key, "delete") {
                "删除"
            } else if str_eq(key, "rename") {
                "重命名"
            } else if str_eq(key, "rename_scheme") {
                "重命名方案"
            } else if str_eq(key, "cancel") {
                "取消"
            } else if str_eq(key, "confirm") {
                "确定"
            } else if str_eq(key, "skill") {
                "技能"
            } else if str_eq(key, "inventory") {
                "物品栏"
            } else if str_eq(key, "key") {
                "按键"
            } else if str_eq(key, "map_to") {
                "映射到"
            } else if str_eq(key, "inv_slot") {
                "物品栏"
            } else if str_eq(key, "block_win") {
                "屏蔽 Win 键"
            } else if str_eq(key, "f11_switch") {
                "F11 切换方案"
            } else if str_eq(key, "f12_pause") {
                "F12 暂停改键"
            } else if str_eq(key, "f12_toggle") {
                "(F12 切换)"
            } else if str_eq(key, "enabled") {
                "已启用"
            } else if str_eq(key, "in_game") {
                "游戏中"
            } else if str_eq(key, "paused") {
                "已暂停"
            } else if str_eq(key, "no_active_scheme") {
                "无活动方案"
            } else {
                ""
            }
        },
        Language::En => {
            if str_eq(key, "scheme") {
                "Scheme:"
            } else if str_eq(key, "new") {
                "New"
            } else if str_eq(key, "delete") {
                "Delete"
            } else if str_eq(key, "rename") {
                "Rename"
            } else if str_eq(key, "rename_scheme") {
                "Rename Scheme"
            } else if str_eq(key, "cancel") {
                "Cancel"
            } else if str_eq(key, "confirm") {
                "OK"
            } else if str_eq(key, "skill") {
                "Skills"
            } else if str_eq(key, "inventory") {
                "Inventory"
            } else if str_eq(key, "key") {
                "Key"
            } else if str_eq(key, "map_to") {
                "Map To"
            } else if str_eq(key, "inv_slot") {
                "Slot"
            } else if str_eq(key, "block_win") {
                "Block Win Key"
            } else if str_eq(key, "f11_switch") {
                "F11 Switch Scheme"
            } else if str_eq(key, "f12_pause") {
                "F12 Pause Remap"
            } else if str_eq(key, "f12_toggle") {
                "(F12 Toggle)"
            } else if str_eq(key, "enabled") {
                "Enabled"
            } else if str_eq(key, "in_game") {
                "In Game"
            } else if str_eq(key, "paused") {
                "Paused"
            } else if str_eq(key, "no_active_scheme") {
                "No active scheme"
            } else {
                ""
            }
        },
    }
}

/// The message that a key is already in use.
pub open spec fn key_used_text(lang: Language, key_name: Seq<char>) -> Seq<char> {
    match lang {
        Language::Zh => "按键 "@ + key_name + " 已被使用，请选择其他按键"@,
        Language::En => "Key "@ + key_name + " is already in use"@,
    }
}

/// The message that a key is already in use.
pub fn t_key_used(lang: Language, key_name: &str) -> (r: String)
    ensures
        r@ == key_used_text(lang, key_name@),
{
    match lang {
        Language::Zh => {
            let mut s = String::from_str("按键 ");
            s.append(key_name);
            s.append(" 已被使用，请选择其他按键");
            s
        },
        Language::En => {
            let mut s = String::from_str("Key ");
            s.append(key_name);
            s.append(" is already in use");
            s
        },
    }
}

/// The message that the last scheme cannot be deleted.
pub open spec fn cannot_delete_last_text(lang: Language) -> Seq<char> {
    match lang {
        Language::Zh => "无法删除最后一个方案"@,
        Language::En => "Cannot delete the last scheme"@,
    }
}

/// The message that the last scheme cannot be deleted.
pub fn t_cannot_delete_last(lang: Language) -> (r: String)
    ensures
        r@ == cannot_delete_last_text(lang),
{
    match lang {
        Language::Zh => String::from_str("无法删除最后一个方案"),
        Language::En => String::from_str("Cannot delete the last scheme"),
    }
}

/// The message that a scheme name is taken.
pub open spec fn scheme_exists_text(lang: Language, name: Seq<char>) -> Seq<char> {
    match lang {
        Language::Zh => "方案名 \""@ + name + "\" 已存在"@,
        Language::En => "Scheme name \""@ + name + "\" already exists"@,
    }
}

/// The message that a scheme name is taken.
pub fn t_scheme_exists(lang: Language, name: &str) -> (r: String)
    ensures
        r@ == scheme_exists_text(lang, name@),
{
    match lang {
        Language::Zh => {
            let mut s = String::from_str("方案名 \"");
            s.append(name);
            s.append("\" 已存在");
            s
        },
        Language::En => {
            let mut s = String::from_str("Scheme name \"");
            s.append(name);
            s.append("\" already exists");
            s
        },
    }
}

/// The message that a key is not supported.
pub open spec fn unsupported_key_text(lang: Language, key: Seq<char>) -> Seq<char> {
    match lang {
        Language::Zh => "不支持的按键: "@ + key,
        Language::En => "Unsupported key: "@ + key,
    }
}

/// The message that a key is not supported.
pub fn t_unsupported_key(lang: Language, key: &str) -> (r: String)
    ensures
        r@ == unsupported_key_text(lang, key@),
{
    let mut s = match lang {
        Language::Zh => String::from_str("不支持的按键: "),
        Language::En => String::from_str("Unsupported key: "),
    };
    s.append(key);
    s
}

/// The default name of the scheme numbered `idx`.
pub open spec fn scheme_name_text(lang: Language, idx: nat) -> Seq<char> {
    match lang {
        Language::Zh => "方案 "@ + decimal(idx),
        Language::En => "Scheme "@ + decimal(idx),
    }
}

/// The default name of the scheme numbered `idx`.
pub fn t_scheme_name(lang: Language, idx: usize) -> (r: String)
    ensures
        r@ == scheme_name_text(lang, idx as nat),
{
    let mut s = match lang {
        Language::Zh => String::from_str("方案 "),
        Language::En => String::from_str("Scheme "),
    };
    let digits = decimal_string(idx as u64);
    s.append(digits.as_str());
    s
}

/// The title of the application window.
pub open spec fn app_title_text(lang: Language) -> Seq<char> {
    match lang {
        Language::Zh => "键盘侠 (Keyman)"@,
        Language::En => "Keyman"@,
    }
}

/// The title of the application window.
pub fn t_app_title(lang: Language) -> (r: String)
    ensures
        r@ == app_title_text(lang),
{
    match lang {
        Language::Zh => String::from_str("键盘侠 (Keyman)"),
        Language::En => String::from_str("Keyman"),
    }
}

/// The name under which a language is offered on the language button.
pub open spec fn language_name(lang: Language) -> Seq<char> {
    match lang {
        Language::Zh => "中文"@,
        Language::En => "EN"@,
    }
}

/// Toggling the language twice gives back the language, and a stored
/// language reads back as itself.
pub proof fn law_toggle_twice(lang: Language)
    ensures
        other_language(other_language(lang)) == lang,
        other_language(lang) != lang,
        language_of_code(language_code(lang)) == lang,
{
}

/// The language button always offers the other language.
pub proof fn law_label_offers_other(lang: Language)
    ensures
        toggle_label_text(lang) == language_name(other_language(lang)),
{
}

/// Both languages have texts for the same keys: a key has a Chinese text exactly
/// when it has an English one.
pub proof fn law_same_keys_have_text(key: Seq<char>)
    ensures
        (ui_text(Language::Zh, key).len() == 0) == (ui_text(Language::En, key).len() == 0),
{
    reveal_strlit("(F12 Toggle)");
    reveal_strlit("(F12 切换)");
    reveal_strlit("Block Win Key");
    reveal_strlit("Cancel");
    reveal_strlit("Delete");
    reveal_strlit("Enabled");
    reveal_strlit("F11 Switch Scheme");
    reveal_strlit("F11 切换方案");
    reveal_strlit("F12 Pause Remap");
    reveal_strlit("F12 暂停改键");
    reveal_strlit("In Game");
    reveal_strlit("Inventory");
    reveal_strlit("Key");
    reveal_strlit("Map To");
    reveal_strlit("New");
    reveal_strlit("No active scheme");
    reveal_strlit("OK");
    reveal_strlit("Paused");
    reveal_strlit("Rename");
    reveal_strlit("Rename Scheme");
    reveal_strlit("Scheme:");
    reveal_strlit("Skills");
    reveal_strlit("Slot");
    reveal_strlit("删除");
    reveal_strlit("取消");
    reveal_strlit("屏蔽 Win 键");
    reveal_strlit("已启用");
    reveal_strlit("已暂停");
    reveal_strlit("技能");
    reveal_strlit("按键");
    reveal_strlit("新建");
    reveal_strlit("方案:");
    reveal_strlit("无活动方案");
    reveal_strlit("映射到");
    reveal_strlit("游戏中");
    reveal_strlit("物品栏");
    reveal_strlit("确定");
    reveal_strlit("重命名");
    reveal_strlit("重命名方案");
}

} // verus!
