use vstd::prelude::*;
use crate::config::AppConfig;
use crate::i18n::{cannot_delete_last_text, key_used_text, unsupported_key_text, scheme_exists_text, scheme_name_text, Language};
use crate::config::without_id;
use crate::text::{decimal, digit_char, trim, trimmed};
use crate::key::VirtualKey;
use crate::engine::{engine_step, press, EngineView};
use crate::hook::HookResult;
use crate::labels::{format_key, key_label, key_of_name, lowercase, parse_key_from_string, to_lowercase};
use crate::scheme::{position_of, scheme_views, KeybindScheme, SchemeView};

verus! {

/// The mapping cell whose key is being captured.
#[derive(Clone, Copy, PartialEq, Eq, Debug, Structural)]
pub enum CaptureTarget {
    /// Re-capturing source key for existing mapping
    SkillSource { old_source: VirtualKey, old_target: VirtualKey },
    /// Re-capturing target key for existing mapping
    SkillTarget(VirtualKey),
    Inventory(usize),
    /// Capturing source/target for new pending row
    NewSkillSource,
    NewSkillTarget,
}

/// Some skill mapping other than the one from `excluded` uses `key` as its
/// source or target.
pub open spec fn used_by_other_skill(s: SchemeView, key: VirtualKey, excluded: Option<VirtualKey>) -> bool {
    exists|src: VirtualKey|
        #![trigger s.skill_mappings.contains_key(src)]
        s.skill_mappings.contains_key(src) && excluded != Some(src)
            && (src == key || s.skill_mappings[src] == key)
}

/// Some inventory slot other than `excluded` holds `key`.
pub open spec fn used_by_other_slot(s: SchemeView, key: VirtualKey, excluded: Option<int>) -> bool {
    exists|i: int| 0 <= i < s.inventory_mappings.len() && excluded != Some(i) && #[trigger] s.inventory_mappings[i] == Some(key)
}

/// Whether capturing `key` into `target` would clash with another mapping
/// of the scheme. A new target key never clashes; a new source key clashes
/// only with other sources and with inventory keys.
pub open spec fn key_clashes(s: SchemeView, key: VirtualKey, target: CaptureTarget) -> bool {
    match target {
        CaptureTarget::SkillSource { old_source, old_target } =>
            used_by_other_skill(s, key, Some(old_source)) || used_by_other_slot(s, key, None),
        CaptureTarget::SkillTarget(source) =>
            used_by_other_skill(s, key, Some(source)) || used_by_other_slot(s, key, None),
        CaptureTarget::Inventory(idx) =>
            used_by_other_skill(s, key, None) || used_by_other_slot(s, key, Some(idx as int)),
        CaptureTarget::NewSkillSource =>
            s.skill_mappings.contains_key(key) || used_by_other_slot(s, key, None),
        CaptureTarget::NewSkillTarget => false,
    }
}

/// Whether a skill mapping other than the one from `excluded` uses `key`.
fn skill_uses_key(scheme: &KeybindScheme, key: VirtualKey, excluded: Option<VirtualKey>) -> (r: bool)
    ensures
        r == used_by_other_skill(scheme@, key, excluded),
{
    let pairs = scheme.skill_mappings.pairs();
    let mut i: usize = 0;
    while i < pairs.len()
        invariant
            i <= pairs@.len(),
            forall|j: int| 0 <= j < pairs@.len() ==> scheme@.skill_mappings.contains_key(#[trigger] pairs@[j].0)
                && scheme@.skill_mappings[pairs@[j].0] == pairs@[j].1,
            forall|k: VirtualKey| scheme@.skill_mappings.contains_key(k) ==> exists|j: int| 0 <= j < pairs@.len() && #[trigger] pairs@[j].0 == k,
            forall|j: int| 0 <= j < i ==> !(excluded != Some(#[trigger] pairs@[j].0) && (pairs@[j].0 == key || pairs@[j].1 == key)),
        decreases pairs@.len() - i,
    {
        let (source, target) = pairs[i];
        if excluded != Some(source) && (source == key || target == key) {
            assert(scheme@.skill_mappings.contains_key(source));
            return true;
        }
        i = i + 1;
    }
    proof {
        if used_by_other_skill(scheme@, key, excluded) {
            let src = choose|src: VirtualKey| #![trigger scheme@.skill_mappings.contains_key(src)]
                scheme@.skill_mappings.contains_key(src) && excluded != Some(src)
                    && (src == key || scheme@.skill_mappings[src] == key);
            let j = choose|j: int| 0 <= j < pairs@.len() && #[trigger] pairs@[j].0 == src;
            assert(pairs@[j].1 == scheme@.skill_mappings[src]);
        }
    }
    false
}

/// Whether an inventory slot other than `excluded` holds `key`.
fn slot_uses_key(scheme: &KeybindScheme, key: VirtualKey, excluded: Option<usize>) -> (r: bool)
    ensures
        r == used_by_other_slot(scheme@, key, match excluded { Some(e) => Some(e as int), None => None }),
{
    let ghost ex = match excluded { Some(e) => Some(e as int), None => None::<int> };
    let mut i: usize = 0;
    while i < 6
        invariant
            i <= 6,
            ex == (match excluded { Some(e) => Some(e as int), None => None::<int> }),
            forall|j: int| 0 <= j < i ==> !(ex != Some(j) && #[trigger] scheme@.inventory_mappings[j] == Some(key)),
        decreases 6 - i,
    {
        if excluded != Some(i) && scheme.inventory_mappings[i] == Some(key) {
            assert(scheme@.inventory_mappings[i as int] == Some(key));
            return true;
        }
        i = i + 1;
    }
    false
}

/// Whether capturing `key` into `target` clashes with another mapping of
/// the scheme.
pub fn key_clashes_in(scheme: &KeybindScheme, key: VirtualKey, target: &CaptureTarget) -> (r: bool)
    ensures
        r == key_clashes(scheme@, key, *target),
{
    match *target {
        CaptureTarget::SkillSource { old_source, .. } => {
            skill_uses_key(scheme, key, Some(old_source)) || slot_uses_key(scheme, key, None)
        },
        CaptureTarget::SkillTarget(source) => {
            skill_uses_key(scheme, key, Some(source)) || slot_uses_key(scheme, key, None)
        },
        CaptureTarget::Inventory(idx) => {
            skill_uses_key(scheme, key, None) || slot_uses_key(scheme, key, Some(idx))
        },
        CaptureTarget::NewSkillSource => {
            scheme.skill_mappings.contains_key(&key) || slot_uses_key(scheme, key, None)
        },
        CaptureTarget::NewSkillTarget => false,
    }
}

/// What the application has to do after an editing step, besides redrawing.
#[derive(Clone, Copy, PartialEq, Eq, Debug, Structural)]
pub enum EditorEffect {
    /// Nothing to persist.
    Nothing,
    /// Save the configuration and hand all its schemes to the engine.
    SaveAndSync,
    /// Save the configuration.
    Save,
    /// Make the engine activate the configuration's active scheme, then save
    /// the configuration.
    SaveAndActivate,
}

/// The editing state of the configuration window.
pub struct Editor {
    pub config: AppConfig,
    /// The mapping cell waiting for a key, if any.
    pub capturing: Option<CaptureTarget>,
    pub error_msg: Option<String>,
    /// The scheme being renamed, if any.
    pub editing_scheme_id: Option<String>,
    /// Pending new skill mapping: (source, target)
    pub pending_skill: (Option<VirtualKey>, Option<VirtualKey>),
}

/// The contents of an editor.
pub struct EditorView {
    pub schemes: Seq<SchemeView>,
    pub active_scheme_id: Seq<char>,
    pub capturing: Option<CaptureTarget>,
    pub error_msg: Option<Seq<char>>,
    pub editing_scheme_id: Option<Seq<char>>,
    pub pending_skill: (Option<VirtualKey>, Option<VirtualKey>),
}

/// The contents of an optional string.
pub open spec fn opt_text(s: Option<String>) -> Option<Seq<char>> {
    match s {
        Some(t) => Some(t@),
        None => None,
    }
}

impl View for Editor {
    type V = EditorView;

    open spec fn view(&self) -> EditorView {
        EditorView {
            schemes: scheme_views(self.config.schemes@),
            active_scheme_id: self.config.active_scheme_id@,
            capturing: self.capturing,
            error_msg: opt_text(self.error_msg),
            editing_scheme_id: opt_text(self.editing_scheme_id),
            pending_skill: self.pending_skill,
        }
    }
}

/// The active scheme of an editor's configuration.
pub open spec fn active_view(v: EditorView) -> Option<SchemeView> {
    match position_of(v.schemes, v.active_scheme_id) {
        Some(i) => Some(v.schemes[i]),
        None => None,
    }
}

/// The editor with `f` applied to its active scheme, if it has one.
pub open spec fn update_active(v: EditorView, f: spec_fn(SchemeView) -> SchemeView) -> EditorView {
    match position_of(v.schemes, v.active_scheme_id) {
        Some(i) => EditorView { schemes: v.schemes.update(i, f(v.schemes[i])), ..v },
        None => v,
    }
}

/// Whether `key` clashes with another mapping of the active scheme when
/// captured into `target`; without an active scheme nothing clashes.
pub open spec fn key_in_use(v: EditorView, key: VirtualKey, target: CaptureTarget) -> bool {
    match active_view(v) {
        Some(s) => key_clashes(s, key, target),
        None => false,
    }
}

/// The scheme with the skill mapping from `source` set to `target`.
pub open spec fn with_skill(s: SchemeView, source: VirtualKey, target: VirtualKey) -> SchemeView {
    SchemeView { skill_mappings: s.skill_mappings.insert(source, target), ..s }
}

/// The scheme with the skill mapping from `source` moved to `new_source`.
pub open spec fn with_skill_moved(s: SchemeView, source: VirtualKey, new_source: VirtualKey, target: VirtualKey) -> SchemeView {
    SchemeView { skill_mappings: s.skill_mappings.remove(source).insert(new_source, target), ..s }
}

/// The scheme without a skill mapping from `source`.
pub open spec fn without_skill(s: SchemeView, source: VirtualKey) -> SchemeView {
    SchemeView { skill_mappings: s.skill_mappings.remove(source), ..s }
}

/// The scheme with inventory slot `slot` set to `key`.
pub open spec fn with_slot(s: SchemeView, slot: int, key: Option<VirtualKey>) -> SchemeView {
    SchemeView { inventory_mappings: s.inventory_mappings.update(slot, key), ..s }
}

/// Adding the pending skill mapping: when both keys are chosen the mapping
/// goes into the active scheme and must be saved; either way the pending
/// row is cleared.
pub open spec fn confirm_add_skill_step(v: EditorView) -> (EditorView, EditorEffect) {
    match v.pending_skill {
        (Some(s), Some(t)) => (
            EditorView {
                pending_skill: (None, None),
                ..update_active(v, |sc: SchemeView| with_skill(sc, s, t))
            },
            EditorEffect::SaveAndSync,
        ),
        _ => (EditorView { pending_skill: (None, None), ..v }, EditorEffect::Nothing),
    }
}

/// Capturing `key` into the cell being captured.
pub open spec fn apply_key_step(v: EditorView, key: VirtualKey, lang: Language) -> (EditorView, EditorEffect) {
    match v.capturing {
        None => (v, EditorEffect::Nothing),
        Some(target) => if key_in_use(v, key, target) {
            (EditorView { error_msg: Some(key_used_text(lang, key_label(key))), ..v }, EditorEffect::Nothing)
        } else {
            let cleared = EditorView { capturing: None, error_msg: None, ..v };
            match target {
                CaptureTarget::SkillSource { old_source, old_target } => (
                    update_active(cleared, |s: SchemeView| with_skill_moved(s, old_source, key, old_target)),
                    EditorEffect::SaveAndSync,
                ),
                CaptureTarget::SkillTarget(source) => (
                    update_active(cleared, |s: SchemeView| with_skill(s, source, key)),
                    EditorEffect::SaveAndSync,
                ),
                CaptureTarget::Inventory(idx) => (
                    if idx < 6 {
                        update_active(cleared, |s: SchemeView| with_slot(s, idx as int, Some(key)))
                    } else {
                        cleared
                    },
                    EditorEffect::SaveAndSync,
                ),
                CaptureTarget::NewSkillSource => {
                    let w = EditorView { pending_skill: (Some(key), v.pending_skill.1), ..cleared };
                    if w.pending_skill.1 is Some {
                        confirm_add_skill_step(w)
                    } else {
                        (w, EditorEffect::Nothing)
                    }
                },
                CaptureTarget::NewSkillTarget => {
                    let w = EditorView { pending_skill: (v.pending_skill.0, Some(key)), ..cleared };
                    if w.pending_skill.0 is Some {
                        confirm_add_skill_step(w)
                    } else {
                        (w, EditorEffect::Nothing)
                    }
                },
            }
        },
    }
}

/// Deleting a scheme: refused with a message when it is the only one;
/// otherwise every scheme with the id goes, and when the active scheme
/// went, the first remaining scheme becomes active.
pub open spec fn delete_scheme_step(v: EditorView, id: Seq<char>, lang: Language) -> (EditorView, EditorEffect) {
    if v.schemes.len() <= 1 {
        (EditorView { error_msg: Some(cannot_delete_last_text(lang)), ..v }, EditorEffect::Nothing)
    } else {
        let rest = without_id(v.schemes, id);
        if v.active_scheme_id == id && rest.len() > 0 {
            (EditorView { schemes: rest, active_scheme_id: rest[0].id, ..v }, EditorEffect::SaveAndActivate)
        } else {
            (EditorView { schemes: rest, ..v }, EditorEffect::Save)
        }
    }
}

/// What becomes of a rename.
#[derive(Clone, Copy, PartialEq, Eq, Debug, Structural)]
pub enum RenameOutcome {
    /// The name is taken by another scheme: the rename stays open, with a
    /// message.
    Rejected,
    /// The scheme was renamed: save the configuration.
    Renamed,
    /// Nothing was renamed (no rename open, an empty name, or no scheme with
    /// the id).
    Unchanged,
}

/// Some scheme other than those with id `id` is named `name`.
pub open spec fn name_taken(schemes: Seq<SchemeView>, id: Seq<char>, name: Seq<char>) -> bool {
    exists|j: int| 0 <= j < schemes.len() && schemes[j].id != id && #[trigger] schemes[j].name == name
}

/// Confirming a rename with the text of the name field.
pub open spec fn confirm_rename_step(v: EditorView, input: Seq<char>, lang: Language) -> (EditorView, RenameOutcome) {
    match v.editing_scheme_id {
        None => (v, RenameOutcome::Unchanged),
        Some(id) => {
            let name = trimmed(input);
            let closed = EditorView { editing_scheme_id: None, ..v };
            if name.len() == 0 {
                (closed, RenameOutcome::Unchanged)
            } else if name_taken(v.schemes, id, name) {
                (EditorView { error_msg: Some(scheme_exists_text(lang, name)), ..v }, RenameOutcome::Rejected)
            } else {
                match position_of(v.schemes, id) {
                    Some(i) => (
                        EditorView { schemes: v.schemes.update(i, SchemeView { name, ..v.schemes[i] }), ..closed },
                        RenameOutcome::Renamed,
                    ),
                    None => (closed, RenameOutcome::Unchanged),
                }
            }
        },
    }
}

/// Whether some scheme has the name.
fn has_name(schemes: &Vec<KeybindScheme>, name: &String) -> (r: bool)
    ensures
        r == exists|j: int| 0 <= j < schemes@.len() && #[trigger] schemes@[j]@.name == name@,
{
    let mut i: usize = 0;
    while i < schemes.len()
        invariant
            i <= schemes@.len(),
            forall|j: int| 0 <= j < i ==> #[trigger] schemes@[j]@.name != name@,
        decreases schemes@.len() - i,
    {
        if schemes[i].name == *name {
            assert(schemes@[i as int]@.name == name@);
            return true;
        }
        i = i + 1;
    }
    false
}

/// The names of the schemes.
pub open spec fn names_of(schemes: Seq<SchemeView>) -> Seq<Seq<char>> {
    schemes.map_values(|s: SchemeView| s.name)
}

/// The default name of the scheme numbered `n`.
pub open spec fn name_label(lang: Language) -> spec_fn(nat) -> Seq<char> {
    |n: nat| scheme_name_text(lang, n)
}

/// The id of the scheme added as number `n`.
pub open spec fn new_scheme_id(n: nat) -> Seq<char> {
    "scheme-"@ + decimal(n)
}

/// The ids of added schemes, by number.
pub open spec fn id_label() -> spec_fn(nat) -> Seq<char> {
    |n: nat| new_scheme_id(n)
}

/// Distinct numbers get distinct labels.
pub open spec fn label_injective(label: spec_fn(nat) -> Seq<char>) -> bool {
    forall|a: nat, b: nat| #[trigger] label(a) == #[trigger] label(b) ==> a == b
}

/// `text` is the label of a number `idx` or higher.
pub open spec fn numbered_from(label: spec_fn(nat) -> Seq<char>, text: Seq<char>, idx: nat) -> bool {
    exists|j: nat| j >= idx && text == #[trigger] label(j)
}

/// How many of the texts are labels of numbers `idx` or higher.
pub open spec fn count_numbered_from(texts: Seq<Seq<char>>, label: spec_fn(nat) -> Seq<char>, idx: nat) -> nat
    decreases texts.len(),
{
    if texts.len() == 0 {
        0
    } else {
        count_numbered_from(texts.drop_last(), label, idx) + if numbered_from(label, texts.last(), idx) { 1nat } else { 0nat }
    }
}

/// Distinct numbers have distinct decimal representations.
proof fn lemma_decimal_injective(a: nat, b: nat)
    requires
        decimal(a) == decimal(b),
    ensures
        a == b,
    decreases a,
{
    if a < 10 && b >= 10 {
        assert(decimal(b).len() >= 2) by {
            assert(decimal(b / 10).len() >= 1) by {
                reveal_with_fuel(decimal, 2);
            }
        }
    } else if a >= 10 && b < 10 {
        assert(decimal(a).len() >= 2) by {
            assert(decimal(a / 10).len() >= 1) by {
                reveal_with_fuel(decimal, 2);
            }
        }
    } else if a >= 10 && b >= 10 {
        let da = decimal(a / 10);
        let db = decimal(b / 10);
        assert(decimal(a) == da + seq![digit_char(a % 10)]);
        assert(decimal(b) == db + seq![digit_char(b % 10)]);
        assert(da =~= decimal(a).drop_last());
        assert(db =~= decimal(b).drop_last());
        assert(digit_char(a % 10) == decimal(a).last());
        assert(digit_char(b % 10) == decimal(b).last());
        lemma_decimal_injective(a / 10, b / 10);
    } else {
        assert(decimal(a)[0] == digit_char(a));
        assert(decimal(b)[0] == digit_char(b));
    }
}

/// Distinct numbers give distinct default scheme names.
proof fn lemma_scheme_name_injective(lang: Language)
    ensures
        label_injective(name_label(lang)),
{
    let p: Seq<char> = match lang {
        Language::Zh => "方案 "@,
        Language::En => "Scheme "@,
    };
    assert forall|a: nat, b: nat| #[trigger] name_label(lang)(a) == #[trigger] name_label(lang)(b) implies a == b by {
        assert(scheme_name_text(lang, a) == p + decimal(a));
        assert(decimal(a) =~= scheme_name_text(lang, a).subrange(p.len() as int, scheme_name_text(lang, a).len() as int));
        assert(decimal(b) =~= scheme_name_text(lang, b).subrange(p.len() as int, scheme_name_text(lang, b).len() as int));
        lemma_decimal_injective(a, b);
    }
}

/// Distinct numbers give distinct ids.
proof fn lemma_scheme_id_injective()
    ensures
        label_injective(id_label()),
{
    let p: Seq<char> = "scheme-"@;
    assert forall|a: nat, b: nat| #[trigger] id_label()(a) == #[trigger] id_label()(b) implies a == b by {
        assert(decimal(a) =~= new_scheme_id(a).subrange(p.len() as int, new_scheme_id(a).len() as int));
        assert(decimal(b) =~= new_scheme_id(b).subrange(p.len() as int, new_scheme_id(b).len() as int));
        lemma_decimal_injective(a, b);
    }
}

/// Moving the lower bound up never counts more texts, and counts fewer
/// when a text is exactly the old bound's label.
proof fn lemma_count_numbered_step(texts: Seq<Seq<char>>, label: spec_fn(nat) -> Seq<char>, idx: nat)
    requires
        label_injective(label),
    ensures
        count_numbered_from(texts, label, idx + 1) <= count_numbered_from(texts, label, idx),
        texts.contains(label(idx)) ==> count_numbered_from(texts, label, idx + 1) < count_numbered_from(texts, label, idx),
        count_numbered_from(texts, label, idx) <= texts.len(),
    decreases texts.len(),
{
    if texts.len() > 0 {
        let t = texts.drop_last();
        lemma_count_numbered_step(t, label, idx);
        let n = texts.last();
        if numbered_from(label, n, idx + 1) {
            let j = choose|j: nat| j >= idx + 1 && n == #[trigger] label(j);
            assert(numbered_from(label, n, idx));
        }
        if n == label(idx) {
            assert(numbered_from(label, n, idx));
            if numbered_from(label, n, idx + 1) {
                let j = choose|j: nat| j >= idx + 1 && n == #[trigger] label(j);
                assert(label(j) == label(idx));
            }
        }
        if texts.contains(label(idx)) && n != label(idx) {
            let p = choose|p: int| 0 <= p < texts.len() && texts[p] == label(idx);
            assert(t[p] == texts[p]);
            assert(t.contains(label(idx)));
        }
    }
}

/// `idx` is the first number from `from` on whose label none of the texts
/// is.
pub open spec fn first_free_number(texts: Seq<Seq<char>>, label: spec_fn(nat) -> Seq<char>, from: nat, idx: nat) -> bool {
    &&& idx >= from
    &&& !texts.contains(label(idx))
    &&& forall|j: nat| from <= j < idx ==> texts.contains(#[trigger] label(j))
}

/// The ids of the schemes.
pub open spec fn ids_of(schemes: Seq<SchemeView>) -> Seq<Seq<char>> {
    schemes.map_values(|s: SchemeView| s.id)
}

/// The id `scheme-{n}`.
fn new_id_text(n: usize) -> (r: String)
    ensures
        r@ == new_scheme_id(n as nat),
{
    let mut id = String::from_str("scheme-");
    let digits = crate::text::decimal_string(n as u64);
    id.append(digits.as_str());
    id
}

/// Whether a key, named in lower case, typed while capturing would clear an
/// inventory slot that does not exist (slots are numbered 0 to 5).
pub open spec fn clears_missing_slot_lowered(v: EditorView, key: Seq<char>) -> bool {
    &&& v.editing_scheme_id is None
    &&& v.capturing matches Some(CaptureTarget::Inventory(idx)) && idx >= 6
    &&& (key == "delete"@ || key == "backspace"@)
    &&& active_view(v) is Some
}

/// Whether a key typed while capturing would clear an inventory slot that
/// does not exist.
pub open spec fn clears_missing_slot(v: EditorView, key_text: Seq<char>) -> bool {
    clears_missing_slot_lowered(v, lowercase(key_text))
}

/// A key typed in the window while a cell is being captured, named in
/// lower case: Escape stops capturing, Delete or Backspace clears the cell's
/// mapping, a supported key is captured, any other key sets a message.
/// Keys are ignored while a rename is open or nothing is captured.
pub open spec fn lowered_key_step(v: EditorView, key: Seq<char>, lang: Language) -> (EditorView, EditorEffect) {
    if v.editing_scheme_id is Some {
        (v, EditorEffect::Nothing)
    } else {
        match v.capturing {
            None => (v, EditorEffect::Nothing),
            Some(target) => {
                if key == "escape"@ {
                    (EditorView { capturing: None, error_msg: None, ..v }, EditorEffect::Nothing)
                } else if key == "delete"@ || key == "backspace"@ {
                    match target {
                        CaptureTarget::SkillSource { old_source, old_target } => (
                            EditorView { capturing: None, ..update_active(v, |s: SchemeView| without_skill(s, old_source)) },
                            EditorEffect::SaveAndSync,
                        ),
                        CaptureTarget::SkillTarget(old_source) => (
                            EditorView { capturing: None, ..update_active(v, |s: SchemeView| without_skill(s, old_source)) },
                            EditorEffect::SaveAndSync,
                        ),
                        CaptureTarget::Inventory(idx) => (
                            EditorView { capturing: None, ..update_active(v, |s: SchemeView| with_slot(s, idx as int, None)) },
                            EditorEffect::SaveAndSync,
                        ),
                        _ => (EditorView { capturing: None, ..v }, EditorEffect::Nothing),
                    }
                } else {
                    match key_of_name(lowercase(key)) {
                        None => (EditorView { error_msg: Some(unsupported_key_text(lang, key)), ..v }, EditorEffect::Nothing),
                        Some(vk) => apply_key_step(v, vk, lang),
                    }
                }
            },
        }
    }
}

/// A key typed in the window while a cell is being captured: its name is
/// taken in lower case.
pub open spec fn capture_key_step(v: EditorView, key_text: Seq<char>, lang: Language) -> (EditorView, EditorEffect) {
    lowered_key_step(v, lowercase(key_text), lang)
}

/// The blocked keys after the "block Win key" box is checked (both Win keys
/// added, each unless already there) or cleared (both removed).
pub open spec fn blocked_after(keys: Seq<VirtualKey>, checked: bool) -> Seq<VirtualKey> {
    if checked {
        let with_left = if keys.contains(VirtualKey::LWin) { keys } else { keys.push(VirtualKey::LWin) };
        if with_left.contains(VirtualKey::RWin) { with_left } else { with_left.push(VirtualKey::RWin) }
    } else {
        keys.filter(|k: VirtualKey| k != VirtualKey::LWin && k != VirtualKey::RWin)
    }
}

/// Checking the "block Win key" box blocks both Win keys and keeps every
/// other blocked key; clearing it unblocks both and keeps every other key.
pub proof fn law_block_win(keys: Seq<VirtualKey>, k: VirtualKey)
    ensures
        blocked_after(keys, true).contains(VirtualKey::LWin),
        blocked_after(keys, true).contains(VirtualKey::RWin),
        keys.contains(k) ==> blocked_after(keys, true).contains(k),
        blocked_after(keys, true).contains(k) ==> keys.contains(k) || k == VirtualKey::LWin || k == VirtualKey::RWin,
        !blocked_after(keys, false).contains(VirtualKey::LWin),
        !blocked_after(keys, false).contains(VirtualKey::RWin),
        k != VirtualKey::LWin && k != VirtualKey::RWin ==> (blocked_after(keys, false).contains(k) <==> keys.contains(k)),
{
    broadcast use vstd::seq_lib::group_filter_ensures;
    let pred = |x: VirtualKey| x != VirtualKey::LWin && x != VirtualKey::RWin;
    let with_left = if keys.contains(VirtualKey::LWin) { keys } else { keys.push(VirtualKey::LWin) };
    assert(with_left.contains(VirtualKey::LWin)) by {
        if !keys.contains(VirtualKey::LWin) {
            assert(with_left[keys.len() as int] == VirtualKey::LWin);
        }
    }
    let both = if with_left.contains(VirtualKey::RWin) { with_left } else { with_left.push(VirtualKey::RWin) };
    assert(both.contains(VirtualKey::RWin)) by {
        if !with_left.contains(VirtualKey::RWin) {
            assert(both[with_left.len() as int] == VirtualKey::RWin);
        }
    }
    assert(both.contains(VirtualKey::LWin)) by {
        let j = choose|j: int| 0 <= j < with_left.len() && with_left[j] == VirtualKey::LWin;
        assert(both[j] == with_left[j]);
    }
    if keys.contains(k) {
        let j = choose|j: int| 0 <= j < keys.len() && keys[j] == k;
        assert(with_left[j] == keys[j]);
        assert(both[j] == with_left[j]);
    }
    if both.contains(k) && !keys.contains(k) && k != VirtualKey::LWin {
        let j = choose|j: int| 0 <= j < both.len() && both[j] == k;
        if j < with_left.len() {
            assert(with_left[j] == k);
            if j < keys.len() {
                assert(keys[j] == k);
            }
        }
    }
    let rest = keys.filter(pred);
    if rest.contains(VirtualKey::LWin) {
        keys.lemma_filter_contains_rev(pred, VirtualKey::LWin);
        let j = choose|j: int| 0 <= j < rest.len() && rest[j] == VirtualKey::LWin;
        assert(pred(rest[j]));
    }
    if rest.contains(VirtualKey::RWin) {
        let j = choose|j: int| 0 <= j < rest.len() && rest[j] == VirtualKey::RWin;
        assert(pred(rest[j]));
    }
    if k != VirtualKey::LWin && k != VirtualKey::RWin {
        if rest.contains(k) {
            keys.lemma_filter_contains_rev(pred, k);
        }
        if keys.contains(k) {
            let j = choose|j: int| 0 <= j < keys.len() && keys[j] == k;
            assert(pred(keys[j]));
        }
    }
}

/// The scheme with the Win keys blocked or unblocked.
pub open spec fn with_win_blocked(s: SchemeView, checked: bool) -> SchemeView {
    SchemeView { blocked_keys: blocked_after(s.blocked_keys, checked), ..s }
}

/// Replacing one element of a list of schemes replaces its contents.
proof fn lemma_views_update(s: Seq<KeybindScheme>, i: int, x: KeybindScheme)
    requires
        0 <= i < s.len(),
    ensures
        scheme_views(s.update(i, x)) == scheme_views(s).update(i, x@),
{
    assert(scheme_views(s.update(i, x)) =~= scheme_views(s).update(i, x@));
}

impl Editor {
    /// An editor of the configuration, capturing nothing.
    pub fn new(config: AppConfig) -> (r: Editor)
        ensures
            r.config == config,
            r.capturing is None,
            r.error_msg is None,
            r.editing_scheme_id is None,
            r.pending_skill == (None::<VirtualKey>, None::<VirtualKey>),
    {
        Editor { config, capturing: None, error_msg: None, editing_scheme_id: None, pending_skill: (None, None) }
    }

    /// Whether `new_key` clashes with another mapping of the active scheme
    /// when captured into `exclude_target`.
    pub fn is_key_used(&self, new_key: VirtualKey, exclude_target: &CaptureTarget) -> (r: bool)
        ensures
            r == key_in_use(self@, new_key, *exclude_target),
    {
        proof {
            crate::scheme::lemma_position_of(self@.schemes, self@.active_scheme_id);
        }
        match self.config.active_scheme() {
            Some(scheme) => key_clashes_in(scheme, new_key, exclude_target),
            None => false,
        }
    }

    /// Starts waiting for a key for the given cell.
    pub fn start_capture(&mut self, target: CaptureTarget)
        ensures
            final(self)@ == (EditorView { capturing: Some(target), error_msg: None, ..old(self)@ }),
    {
        self.capturing = Some(target);
        self.error_msg = None;
    }

    /// Stops waiting for a key.
    pub fn cancel_capture(&mut self)
        ensures
            final(self)@ == (EditorView { capturing: None, error_msg: None, ..old(self)@ }),
    {
        self.capturing = None;
        self.error_msg = None;
    }

    /// Adds the pending skill mapping once both of its keys are chosen.
    pub fn confirm_add_skill(&mut self) -> (r: EditorEffect)
        ensures
            final(self)@ == confirm_add_skill_step(old(self)@).0,
            r == confirm_add_skill_step(old(self)@).1,
    {
        let ghost v0 = self@;
        proof {
            crate::scheme::lemma_position_of(v0.schemes, v0.active_scheme_id);
        }
        let (source, target) = self.pending_skill;
        let mut effect = EditorEffect::Nothing;
        if let (Some(s), Some(t)) = (source, target) {
            let ghost old_schemes = self.config.schemes@;
            if let Some(scheme) = self.config.active_scheme_mut() {
                let ghost i = position_of(v0.schemes, v0.active_scheme_id)->0;
                scheme.skill_mappings.insert(s, t);
                proof {
                    lemma_views_update(old_schemes, i, *scheme);
                }
            }
            effect = EditorEffect::SaveAndSync;
        }
        self.pending_skill = (None, None);
        effect
    }

    /// Removes the skill mapping from `source` in the active scheme.
    pub fn remove_skill_mapping(&mut self, source: VirtualKey) -> (r: EditorEffect)
        ensures
            final(self)@ == update_active(old(self)@, |s: SchemeView| without_skill(s, source)),
            r == EditorEffect::SaveAndSync,
    {
        let ghost v0 = self@;
        proof {
            crate::scheme::lemma_position_of(v0.schemes, v0.active_scheme_id);
        }
        let ghost old_schemes = self.config.schemes@;
        if let Some(scheme) = self.config.active_scheme_mut() {
            let ghost i = position_of(v0.schemes, v0.active_scheme_id)->0;
            scheme.skill_mappings.remove(&source);
            proof {
                lemma_views_update(old_schemes, i, *scheme);
            }
        }
        EditorEffect::SaveAndSync
    }

    /// Captures `new_key` into the cell being captured, unless it clashes
    /// with another mapping, in which case an error message is set.
    pub fn apply_key(&mut self, new_key: VirtualKey, lang: Language) -> (r: EditorEffect)
        ensures
            final(self)@ == apply_key_step(old(self)@, new_key, lang).0,
            r == apply_key_step(old(self)@, new_key, lang).1,
    {
        let ghost v0 = self@;
        proof {
            crate::scheme::lemma_position_of(v0.schemes, v0.active_scheme_id);
        }
        let target = match self.capturing {
            Some(t) => t,
            None => return EditorEffect::Nothing,
        };

        if self.is_key_used(new_key, &target) {
            let label = format_key(&new_key);
            self.error_msg = Some(crate::i18n::t_key_used(lang, label.as_str()));
            return EditorEffect::Nothing;
        }

        let ghost old_schemes = self.config.schemes@;
        match target {
            CaptureTarget::SkillSource { old_source, old_target } => {
                if let Some(scheme) = self.config.active_scheme_mut() {
                    let ghost i = position_of(v0.schemes, v0.active_scheme_id)->0;
                    scheme.skill_mappings.remove(&old_source);
                    scheme.skill_mappings.insert(new_key, old_target);
                    proof {
                        lemma_views_update(old_schemes, i, *scheme);
                    }
                }
                self.capturing = None;
                self.error_msg = None;
                EditorEffect::SaveAndSync
            },
            CaptureTarget::SkillTarget(source_key) => {
                if let Some(scheme) = self.config.active_scheme_mut() {
                    let ghost i = position_of(v0.schemes, v0.active_scheme_id)->0;
                    scheme.skill_mappings.insert(source_key, new_key);
                    proof {
                        lemma_views_update(old_schemes, i, *scheme);
                    }
                }
                self.capturing = None;
                self.error_msg = None;
                EditorEffect::SaveAndSync
            },
            CaptureTarget::Inventory(idx) => {
                if let Some(scheme) = self.config.active_scheme_mut() {
                    let ghost i = position_of(v0.schemes, v0.active_scheme_id)->0;
                    if idx < 6 {
                        scheme.inventory_mappings[idx] = Some(new_key);
                        assert(scheme@.inventory_mappings =~= old_schemes[i]@.inventory_mappings.update(idx as int, Some(new_key)));
                    }
                    proof {
                        lemma_views_update(old_schemes, i, *scheme);
                        if idx >= 6 {
                            assert(old_schemes.update(i, *scheme) =~= old_schemes);
                        }
                    }
                }
                self.capturing = None;
                self.error_msg = None;
                EditorEffect::SaveAndSync
            },
            CaptureTarget::NewSkillSource => {
                self.pending_skill.0 = Some(new_key);
                self.capturing = None;
                self.error_msg = None;
                // Auto-add if both fields are set
                if self.pending_skill.1.is_some() {
                    return self.confirm_add_skill();
                }
                EditorEffect::Nothing
            },
            CaptureTarget::NewSkillTarget => {
                self.pending_skill.1 = Some(new_key);
                self.capturing = None;
                self.error_msg = None;
                // Auto-add if both fields are set
                if self.pending_skill.0.is_some() {
                    return self.confirm_add_skill();
                }
                EditorEffect::Nothing
            },
        }
    }
    /// Deletes the schemes with the id, unless it is the only scheme.
    pub fn delete_scheme(&mut self, scheme_id: &str, lang: Language) -> (r: EditorEffect)
        ensures
            final(self)@ == delete_scheme_step(old(self)@, scheme_id@, lang).0,
            r == delete_scheme_step(old(self)@, scheme_id@, lang).1,
    {
        if self.config.schemes.len() <= 1 {
            self.error_msg = Some(crate::i18n::t_cannot_delete_last(lang));
            return EditorEffect::Nothing;
        }

        self.config.remove_scheme(scheme_id);

        if crate::text::str_eq(self.config.active_scheme_id.as_str(), scheme_id) {
            if self.config.schemes.len() > 0 {
                self.config.active_scheme_id = self.config.schemes[0].id.clone();
                return EditorEffect::SaveAndActivate;
            }
        }
        EditorEffect::Save
    }

    /// Opens the rename of a scheme, returning its current name for the
    /// name field.
    pub fn start_rename(&mut self, scheme_id: String) -> (r: Option<String>)
        ensures
            final(self)@ == (EditorView { editing_scheme_id: Some(scheme_id@), ..old(self)@ }),
            match position_of(old(self)@.schemes, scheme_id@) {
                Some(i) => r matches Some(name) && name@ == old(self)@.schemes[i].name,
                None => r is None,
            },
    {
        proof {
            crate::scheme::lemma_position_of(self@.schemes, scheme_id@);
        }
        let name = match crate::scheme::find_scheme(&self.config.schemes, scheme_id.as_str()) {
            Some(i) => Some(self.config.schemes[i].name.clone()),
            None => None,
        };
        self.editing_scheme_id = Some(scheme_id);
        name
    }

    /// Closes the rename without renaming.
    pub fn cancel_rename(&mut self)
        ensures
            final(self)@ == (EditorView { editing_scheme_id: None, ..old(self)@ }),
    {
        self.editing_scheme_id = None;
    }

    /// Renames the scheme being renamed to the trimmed text of the name
    /// field, unless another scheme has that name.
    pub fn confirm_rename(&mut self, input: &str, lang: Language) -> (r: RenameOutcome)
        ensures
            final(self)@ == confirm_rename_step(old(self)@, input@, lang).0,
            r == confirm_rename_step(old(self)@, input@, lang).1,
    {
        let ghost v0 = self@;
        let scheme_id = match self.editing_scheme_id.take() {
            Some(id) => id,
            None => return RenameOutcome::Unchanged,
        };
        let new_name = trim(input);
        if new_name.unicode_len() == 0 {
            return RenameOutcome::Unchanged;
        }
        // Check for duplicate name
        let mut duplicate = false;
        let mut i: usize = 0;
        while i < self.config.schemes.len()
            invariant
                i <= self.config.schemes@.len(),
                scheme_views(self.config.schemes@) == v0.schemes,
                duplicate == exists|j: int| 0 <= j < i && v0.schemes[j].id != scheme_id@ && #[trigger] v0.schemes[j].name == new_name@,
            decreases self.config.schemes@.len() - i,
        {
            assert(v0.schemes[i as int] == self.config.schemes@[i as int]@);
            let hit = !crate::text::str_eq(self.config.schemes[i].id.as_str(), scheme_id.as_str())
                && crate::text::str_eq(self.config.schemes[i].name.as_str(), new_name);
            if hit {
                duplicate = true;
            }
            proof {
                if hit {
                    assert(v0.schemes[i as int].name == new_name@);
                }
            }
            i = i + 1;
        }
        if duplicate {
            self.error_msg = Some(crate::i18n::t_scheme_exists(lang, new_name));
            self.editing_scheme_id = Some(scheme_id);
            return RenameOutcome::Rejected;
        }
        proof {
            crate::scheme::lemma_position_of(v0.schemes, scheme_id@);
        }
        match crate::scheme::find_scheme(&self.config.schemes, scheme_id.as_str()) {
            Some(k) => {
                let ghost old_schemes = self.config.schemes@;
                let mut scheme = self.config.schemes.remove(k);
                scheme.name = String::from_str(new_name);
                self.config.schemes.insert(k, scheme);
                proof {
                    assert(self.config.schemes@ =~= old_schemes.update(k as int, scheme));
                    lemma_views_update(old_schemes, k as int, scheme);
                }
                RenameOutcome::Renamed
            },
            None => RenameOutcome::Unchanged,
        }
    }

    /// Adopts the engine's active scheme when it differs (the engine
    /// switches schemes on F11); true when the configuration changed and
    /// must be saved.
    pub fn sync_active_from_engine(&mut self, engine_active_id: Option<&str>) -> (r: bool)
        ensures
            r == (engine_active_id matches Some(e) && e@ != old(self)@.active_scheme_id),
            final(self)@ == (if r {
                EditorView { active_scheme_id: engine_active_id->0@, ..old(self)@ }
            } else {
                old(self)@
            }),
    {
        if let Some(engine_id) = engine_active_id {
            if !crate::text::str_eq(engine_id, self.config.active_scheme_id.as_str()) {
                self.config.active_scheme_id = String::from_str(engine_id);
                return true;
            }
        }
        false
    }

    /// Adds a new scheme and makes it active. Its id is `scheme-{n}` for the
    /// first number `n` from one past the number of schemes on that no
    /// scheme has as id, and its name the first default name from that same
    /// starting number on that no scheme has. All schemes must then be handed
    /// to the engine, which does not hold the new one yet.
    pub fn new_scheme(&mut self, lang: Language) -> (r: EditorEffect)
        requires
            old(self).config.schemes@.len() < usize::MAX / 4,
        ensures
            r == EditorEffect::SaveAndSync,
            final(self)@.schemes.len() == old(self)@.schemes.len() + 1,
            final(self)@.schemes.drop_last() == old(self)@.schemes,
            forall|j: int| 0 <= j < old(self)@.schemes.len() ==> final(self)@.schemes.last().id != #[trigger] old(self)@.schemes[j].id,
            final(self)@.active_scheme_id == final(self)@.schemes.last().id,
            exists|n: nat| #![trigger new_scheme_id(n)]
                first_free_number(ids_of(old(self)@.schemes), id_label(), old(self)@.schemes.len() + 1, n)
                && final(self)@.schemes.last().id == new_scheme_id(n),
            exists|n: nat| #![trigger scheme_name_text(lang, n)]
                first_free_number(names_of(old(self)@.schemes), name_label(lang), old(self)@.schemes.len() + 1, n)
                && final(self)@.schemes.last().name == scheme_name_text(lang, n),
            final(self)@.schemes.last().skill_mappings == Map::<VirtualKey, VirtualKey>::empty(),
            final(self)@.schemes.last().inventory_mappings == seq![None::<VirtualKey>, None, None, None, None, None],
            final(self)@.schemes.last().blocked_keys == seq![VirtualKey::LWin, VirtualKey::RWin],
            final(self)@.schemes.last().toggle_key == VirtualKey::F12,
            final(self)@.capturing == old(self)@.capturing,
            final(self)@.error_msg == old(self)@.error_msg,
            final(self)@.editing_scheme_id == old(self)@.editing_scheme_id,
            final(self)@.pending_skill == old(self)@.pending_skill,
    {
        let ghost v0 = self@;
        let ghost names = names_of(v0.schemes);
        let ghost ids = ids_of(v0.schemes);
        let ghost nl = name_label(lang);
        let ghost il = id_label();
        let count = self.config.schemes.len() + 1;
        proof {
            lemma_scheme_name_injective(lang);
            lemma_scheme_id_injective();
        }
        // Generate unique id
        let mut id_num = count;
        let mut id = new_id_text(id_num);
        proof {
            lemma_count_numbered_step(ids, il, count as nat);
        }
        loop
            invariant
                count == v0.schemes.len() + 1,
                count <= usize::MAX / 4,
                scheme_views(self.config.schemes@) == v0.schemes,
                ids == ids_of(v0.schemes),
                il == id_label(),
                label_injective(il),
                count <= id_num,
                id@ == il(id_num as nat),
                forall|j: nat| count <= j < id_num ==> ids.contains(#[trigger] il(j)),
                id_num - count + count_numbered_from(ids, il, id_num as nat) <= count_numbered_from(ids, il, count as nat),
                count_numbered_from(ids, il, count as nat) <= ids.len(),
            ensures
                !ids.contains(id@),
            decreases count_numbered_from(ids, il, id_num as nat),
        {
            let taken = crate::scheme::find_scheme(&self.config.schemes, id.as_str()).is_some();
            proof {
                if taken {
                    let j = choose|j: int| 0 <= j < v0.schemes.len() && v0.schemes[j].id == id@;
                    assert(ids[j] == v0.schemes[j].id);
                    assert(ids.contains(id@));
                } else {
                    assert forall|p: int| 0 <= p < ids.len() implies ids[p] != id@ by {
                        assert(ids[p] == v0.schemes[p].id);
                    }
                }
            }
            if !taken {
                break;
            }
            proof {
                lemma_count_numbered_step(ids, il, id_num as nat);
            }
            id_num = id_num + 1;
            id = new_id_text(id_num);
        }
        // Generate unique name
        let mut idx = count;
        let mut name = crate::i18n::t_scheme_name(lang, idx);
        proof {
            lemma_count_numbered_step(names, nl, count as nat);
        }
        loop
            invariant
                count == v0.schemes.len() + 1,
                count <= usize::MAX / 4,
                scheme_views(self.config.schemes@) == v0.schemes,
                names == names_of(v0.schemes),
                nl == name_label(lang),
                label_injective(nl),
                count <= idx,
                name@ == nl(idx as nat),
                forall|j: nat| count <= j < idx ==> names.contains(#[trigger] nl(j)),
                idx - count + count_numbered_from(names, nl, idx as nat) <= count_numbered_from(names, nl, count as nat),
                count_numbered_from(names, nl, count as nat) <= names.len(),
            ensures
                !names.contains(name@),
            decreases count_numbered_from(names, nl, idx as nat),
        {
            let taken = has_name(&self.config.schemes, &name);
            proof {
                if taken {
                    let j = choose|j: int| 0 <= j < self.config.schemes@.len() && #[trigger] self.config.schemes@[j]@.name == name@;
                    assert(names[j] == v0.schemes[j].name);
                    assert(names.contains(name@));
                } else {
                    assert forall|p: int| 0 <= p < names.len() implies names[p] != name@ by {
                        assert(names[p] == self.config.schemes@[p]@.name);
                    }
                }
            }
            if !taken {
                break;
            }
            proof {
                lemma_count_numbered_step(names, nl, idx as nat);
            }
            idx = idx + 1;
            name = crate::i18n::t_scheme_name(lang, idx);
        }
        let mut new_scheme = KeybindScheme::default_dota(lang);
        new_scheme.id = id.clone();
        new_scheme.name = name;
        let ghost added = new_scheme@;
        self.config.add_scheme(new_scheme);
        self.config.active_scheme_id = id;
        proof {
            assert(scheme_views(self.config.schemes@) =~= v0.schemes.push(added));
            assert(first_free_number(names, nl, count as nat, idx as nat));
            assert(first_free_number(ids, il, count as nat, id_num as nat));
            assert(self@.schemes.drop_last() =~= v0.schemes);
            assert forall|j: int| 0 <= j < v0.schemes.len() implies added.id != #[trigger] v0.schemes[j].id by {
                assert(ids[j] == v0.schemes[j].id);
            }
        }
        EditorEffect::SaveAndSync
    }
    /// Blocks or unblocks both Win keys in the active scheme.
    pub fn set_block_win(&mut self, checked: bool) -> (r: EditorEffect)
        ensures
            final(self)@ == update_active(old(self)@, |s: SchemeView| with_win_blocked(s, checked)),
            r == EditorEffect::SaveAndSync,
    {
        let ghost v0 = self@;
        proof {
            crate::scheme::lemma_position_of(v0.schemes, v0.active_scheme_id);
        }
        let ghost old_schemes = self.config.schemes@;
        if let Some(scheme) = self.config.active_scheme_mut() {
            let ghost i = position_of(v0.schemes, v0.active_scheme_id)->0;
            let ghost b0 = scheme.blocked_keys@;
            if checked {
                if !crate::engine::key_listed(&scheme.blocked_keys, VirtualKey::LWin) {
                    scheme.blocked_keys.push(VirtualKey::LWin);
                }
                if !crate::engine::key_listed(&scheme.blocked_keys, VirtualKey::RWin) {
                    scheme.blocked_keys.push(VirtualKey::RWin);
                }
            } else {
                let mut kept: Vec<VirtualKey> = Vec::new();
                let mut j: usize = 0;
                while j < scheme.blocked_keys.len()
                    invariant
                        j <= b0.len(),
                        scheme.blocked_keys@ == b0,
                        kept@ == b0.take(j as int).filter(|k: VirtualKey| k != VirtualKey::LWin && k != VirtualKey::RWin),
                    decreases b0.len() - j,
                {
                    proof {
                        reveal_with_fuel(Seq::filter, 1);
                        assert(b0.take(j + 1).drop_last() =~= b0.take(j as int));
                    }
                    let k = scheme.blocked_keys[j];
                    if k != VirtualKey::LWin && k != VirtualKey::RWin {
                        kept.push(k);
                    }
                    j = j + 1;
                }
                proof {
                    assert(b0.take(b0.len() as int) =~= b0);
                }
                scheme.blocked_keys = kept;
            }
            proof {
                assert(scheme@ == with_win_blocked(old_schemes[i]@, checked));
                lemma_views_update(old_schemes, i, *scheme);
            }
        }
        EditorEffect::SaveAndSync
    }

    /// Handles a key typed in the window (see `capture_key_step`).
    pub fn handle_capture_key(&mut self, key_text: &str, lang: Language) -> (r: EditorEffect)
        requires
            !clears_missing_slot(old(self)@, key_text@),
        ensures
            final(self)@ == capture_key_step(old(self)@, key_text@, lang).0,
            r == capture_key_step(old(self)@, key_text@, lang).1,
    {
        let key = to_lowercase(key_text);
        self.handle_lowered_key(key.as_str(), lang)
    }

    /// Handles a key typed in the window, named in lower case (see
    /// `lowered_key_step`).
    pub fn handle_lowered_key(&mut self, key: &str, lang: Language) -> (r: EditorEffect)
        requires
            !clears_missing_slot_lowered(old(self)@, key@),
        ensures
            final(self)@ == lowered_key_step(old(self)@, key@, lang).0,
            r == lowered_key_step(old(self)@, key@, lang).1,
    {
        let ghost v0 = self@;
        // Skip key handling if rename dialog is open (TextInput handles it)
        if self.editing_scheme_id.is_some() {
            return EditorEffect::Nothing;
        }
        let target = match self.capturing {
            Some(t) => t,
            None => return EditorEffect::Nothing,
        };

        if crate::text::str_eq(key, "escape") {
            self.cancel_capture();
            return EditorEffect::Nothing;
        }

        // Delete/Backspace clears the mapping
        if crate::text::str_eq(key, "delete") || crate::text::str_eq(key, "backspace") {
            let effect = match target {
                CaptureTarget::SkillSource { old_source, .. } => self.remove_skill_mapping(old_source),
                CaptureTarget::SkillTarget(old_source) => self.remove_skill_mapping(old_source),
                CaptureTarget::Inventory(idx) => {
                    proof {
                        crate::scheme::lemma_position_of(v0.schemes, v0.active_scheme_id);
                    }
                    let ghost old_schemes = self.config.schemes@;
                    if let Some(scheme) = self.config.active_scheme_mut() {
                        let ghost i = position_of(v0.schemes, v0.active_scheme_id)->0;
                        scheme.inventory_mappings[idx] = None;
                        assert(scheme@.inventory_mappings =~= old_schemes[i]@.inventory_mappings.update(idx as int, None));
                        proof {
                            lemma_views_update(old_schemes, i, *scheme);
                        }
                    }
                    EditorEffect::SaveAndSync
                },
                _ => EditorEffect::Nothing,
            };
            self.capturing = None;
            return effect;
        }

        match parse_key_from_string(key) {
            None => {
                self.error_msg = Some(crate::i18n::t_unsupported_key(lang, key));
                EditorEffect::Nothing
            },
            Some(vk) => self.apply_key(vk, lang),
        }
    }
}

/// Which captures a key already in use clashes with: a key held by an
/// inventory slot clashes as any skill key and in any other slot; the
/// source key of a skill mapping clashes as a new source, in any slot and
/// as another mapping's key; the target of a skill mapping clashes in any
/// slot and as another mapping's key. A new target never clashes, and a key
/// that nothing uses clashes with nothing.
pub proof fn law_key_clashes(s: SchemeView, key: VirtualKey)
    ensures
        forall|i: int| 0 <= i < s.inventory_mappings.len() && s.inventory_mappings[i] == Some(key) ==> {
            &&& key_clashes(s, key, CaptureTarget::NewSkillSource)
            &&& forall|src: VirtualKey| #[trigger] key_clashes(s, key, CaptureTarget::SkillTarget(src))
            &&& forall|src: VirtualKey, tgt: VirtualKey| #[trigger] key_clashes(s, key, CaptureTarget::SkillSource { old_source: src, old_target: tgt })
            &&& forall|j: usize| j != i ==> #[trigger] key_clashes(s, key, CaptureTarget::Inventory(j))
        },
        s.skill_mappings.contains_key(key) ==> {
            &&& key_clashes(s, key, CaptureTarget::NewSkillSource)
            &&& forall|j: usize| #[trigger] key_clashes(s, key, CaptureTarget::Inventory(j))
            &&& forall|src: VirtualKey| src != key ==> #[trigger] key_clashes(s, key, CaptureTarget::SkillTarget(src))
            &&& forall|src: VirtualKey, tgt: VirtualKey| src != key ==> #[trigger] key_clashes(s, key, CaptureTarget::SkillSource { old_source: src, old_target: tgt })
        },
        forall|from: VirtualKey| s.skill_mappings.contains_key(from) && s.skill_mappings[from] == key ==> {
            &&& forall|j: usize| #[trigger] key_clashes(s, key, CaptureTarget::Inventory(j))
            &&& forall|src: VirtualKey| src != from ==> #[trigger] key_clashes(s, key, CaptureTarget::SkillTarget(src))
            &&& forall|src: VirtualKey, tgt: VirtualKey| src != from ==> #[trigger] key_clashes(s, key, CaptureTarget::SkillSource { old_source: src, old_target: tgt })
        },
        !key_clashes(s, key, CaptureTarget::NewSkillTarget),
        (forall|i: int| 0 <= i < s.inventory_mappings.len() ==> s.inventory_mappings[i] != Some(key))
            && !s.skill_mappings.contains_key(key)
            && (forall|from: VirtualKey| s.skill_mappings.contains_key(from) ==> s.skill_mappings[from] != key)
            ==> forall|t: CaptureTarget| !#[trigger] key_clashes(s, key, t),
{
    assert forall|i: int| 0 <= i < s.inventory_mappings.len() && s.inventory_mappings[i] == Some(key) implies {
        &&& key_clashes(s, key, CaptureTarget::NewSkillSource)
        &&& forall|src: VirtualKey| #[trigger] key_clashes(s, key, CaptureTarget::SkillTarget(src))
        &&& forall|src: VirtualKey, tgt: VirtualKey| #[trigger] key_clashes(s, key, CaptureTarget::SkillSource { old_source: src, old_target: tgt })
        &&& forall|j: usize| j != i ==> #[trigger] key_clashes(s, key, CaptureTarget::Inventory(j))
    } by {
        assert(used_by_other_slot(s, key, None));
        assert forall|j: usize| j != i implies #[trigger] key_clashes(s, key, CaptureTarget::Inventory(j)) by {
            assert(used_by_other_slot(s, key, Some(j as int)));
        }
    }
    if s.skill_mappings.contains_key(key) {
        assert forall|src: VirtualKey| src != key implies #[trigger] key_clashes(s, key, CaptureTarget::SkillTarget(src)) by {
            assert(used_by_other_skill(s, key, Some(src)));
        }
        assert forall|src: VirtualKey, tgt: VirtualKey| src != key implies #[trigger] key_clashes(s, key, CaptureTarget::SkillSource { old_source: src, old_target: tgt }) by {
            assert(used_by_other_skill(s, key, Some(src)));
        }
        assert forall|j: usize| #[trigger] key_clashes(s, key, CaptureTarget::Inventory(j)) by {
            assert(used_by_other_skill(s, key, None));
        }
    }
    assert forall|from: VirtualKey| s.skill_mappings.contains_key(from) && s.skill_mappings[from] == key implies {
        &&& forall|j: usize| #[trigger] key_clashes(s, key, CaptureTarget::Inventory(j))
        &&& forall|src: VirtualKey| src != from ==> #[trigger] key_clashes(s, key, CaptureTarget::SkillTarget(src))
        &&& forall|src: VirtualKey, tgt: VirtualKey| src != from ==> #[trigger] key_clashes(s, key, CaptureTarget::SkillSource { old_source: src, old_target: tgt })
    } by {
        assert(used_by_other_skill(s, key, None));
        assert forall|src: VirtualKey| src != from implies #[trigger] key_clashes(s, key, CaptureTarget::SkillTarget(src)) by {
            assert(used_by_other_skill(s, key, Some(src)));
        }
        assert forall|src: VirtualKey, tgt: VirtualKey| src != from implies #[trigger] key_clashes(s, key, CaptureTarget::SkillSource { old_source: src, old_target: tgt }) by {
            assert(used_by_other_skill(s, key, Some(src)));
        }
    }
}

/// A key that clashes with another mapping is refused: the schemes, the
/// captured cell and the pending row stay as they are; only the message
/// changes.
pub proof fn law_clashing_key_refused(v: EditorView, key: VirtualKey, lang: Language)
    requires
        v.capturing matches Some(target) && key_in_use(v, key, target),
    ensures
        apply_key_step(v, key, lang).0 == (EditorView {
            error_msg: Some(key_used_text(lang, key_label(key))),
            ..v
        }),
        apply_key_step(v, key, lang).1 == EditorEffect::Nothing,
{
}

/// The only scheme cannot be deleted: the schemes stay as they are.
pub proof fn law_last_scheme_kept(v: EditorView, id: Seq<char>, lang: Language)
    requires
        v.schemes.len() <= 1,
    ensures
        delete_scheme_step(v, id, lang).0.schemes == v.schemes,
        delete_scheme_step(v, id, lang).0.error_msg == Some(cannot_delete_last_text(lang)),
{
}

/// Deleting a scheme other than the active one keeps the active scheme
/// and only asks for a save; every scheme with another id stays.
pub proof fn law_delete_other_keeps_active(v: EditorView, id: Seq<char>, lang: Language)
    requires
        v.schemes.len() > 1,
        id != v.active_scheme_id,
    ensures
        delete_scheme_step(v, id, lang).0.active_scheme_id == v.active_scheme_id,
        delete_scheme_step(v, id, lang).1 == EditorEffect::Save,
        forall|j: int| 0 <= j < v.schemes.len() && v.schemes[j].id != id
            ==> delete_scheme_step(v, id, lang).0.schemes.contains(#[trigger] v.schemes[j]),
{
    broadcast use vstd::seq_lib::group_filter_ensures;
    assert forall|j: int| 0 <= j < v.schemes.len() && v.schemes[j].id != id
        implies delete_scheme_step(v, id, lang).0.schemes.contains(#[trigger] v.schemes[j]) by {
        assert(v.schemes.contains(v.schemes[j]));
    }
}

/// Deleting the active scheme, while another scheme remains, makes the
/// first remaining scheme active, a scheme of another id, and asks the
/// engine to switch to it.
pub proof fn law_delete_active_moves_to_first(v: EditorView, lang: Language, other: int)
    requires
        v.schemes.len() > 1,
        0 <= other < v.schemes.len(),
        v.schemes[other].id != v.active_scheme_id,
    ensures
        ({
            let (w, effect) = delete_scheme_step(v, v.active_scheme_id, lang);
            &&& w.schemes.len() > 0
            &&& w.active_scheme_id == w.schemes[0].id
            &&& w.active_scheme_id != v.active_scheme_id
            &&& v.schemes.contains(w.schemes[0])
            &&& effect == EditorEffect::SaveAndActivate
        }),
{
    broadcast use vstd::seq_lib::group_filter_ensures;
    let rest = without_id(v.schemes, v.active_scheme_id);
    assert(v.schemes.contains(v.schemes[other]));
    assert(rest.contains(v.schemes[other]));
    assert(rest.len() > 0);
    assert(rest.contains(rest[0]));
    assert(rest[0].id != v.active_scheme_id);
    v.schemes.lemma_filter_contains_rev(|x: SchemeView| x.id != v.active_scheme_id, rest[0]);
}

/// After a deletion no scheme has the deleted id.
pub proof fn law_deleted_id_gone(v: EditorView, id: Seq<char>, lang: Language)
    requires
        v.schemes.len() > 1,
    ensures
        !crate::scheme::has_id(delete_scheme_step(v, id, lang).0.schemes, id),
{
    let rest = without_id(v.schemes, id);
    if crate::scheme::has_id(rest, id) {
        let j = choose|j: int| 0 <= j < rest.len() && rest[j].id == id;
        broadcast use vstd::seq_lib::group_filter_ensures;
        assert(rest.contains(rest[j]));
    }
}

/// A rename never gives a scheme the name of another scheme.
pub proof fn law_rename_keeps_names_apart(v: EditorView, input: Seq<char>, lang: Language)
    requires
        confirm_rename_step(v, input, lang).1 == RenameOutcome::Renamed,
    ensures
        v.editing_scheme_id matches Some(id) && !name_taken(v.schemes, id, trimmed(input)),
        confirm_rename_step(v, input, lang).0.schemes[position_of(v.schemes, v.editing_scheme_id->0)->0].name == trimmed(input),
{
    crate::scheme::lemma_position_of(v.schemes, v.editing_scheme_id->0);
}

/// Delete or Backspace, while a cell is captured, clears that cell's
/// mapping in the active scheme (the `i`-th, the first with the active id)
/// and stops capturing; every other scheme, slot and mapping stays. While a
/// new row is captured nothing is cleared.
pub proof fn law_delete_key_clears(v: EditorView, key: Seq<char>, lang: Language, i: int)
    requires
        key == "delete"@ || key == "backspace"@,
        v.editing_scheme_id is None,
        v.capturing is Some,
        0 <= i < v.schemes.len(),
        v.schemes[i].id == v.active_scheme_id,
        forall|j: int| 0 <= j < i ==> v.schemes[j].id != v.active_scheme_id,
        v.schemes[i].inventory_mappings.len() == 6,
    ensures
        ({
            let (w, effect) = lowered_key_step(v, key, lang);
            &&& w.capturing is None
            &&& w.schemes.len() == v.schemes.len()
            &&& forall|j: int| 0 <= j < v.schemes.len() && j != i ==> w.schemes[j] == v.schemes[j]
            &&& w.schemes[i].id == v.schemes[i].id
            &&& w.schemes[i].name == v.schemes[i].name
            &&& w.schemes[i].blocked_keys == v.schemes[i].blocked_keys
            &&& match v.capturing->0 {
                CaptureTarget::Inventory(idx) => idx < 6 ==> {
                    &&& w.schemes[i].inventory_mappings[idx as int] is None
                    &&& forall|q: int| 0 <= q < v.schemes[i].inventory_mappings.len() && q != idx
                        ==> w.schemes[i].inventory_mappings[q] == v.schemes[i].inventory_mappings[q]
                    &&& w.schemes[i].skill_mappings == v.schemes[i].skill_mappings
                    &&& effect == EditorEffect::SaveAndSync
                },
                CaptureTarget::SkillTarget(src) => {
                    &&& !w.schemes[i].skill_mappings.contains_key(src)
                    &&& forall|k: VirtualKey| k != src ==> (w.schemes[i].skill_mappings.contains_key(k)
                        <==> v.schemes[i].skill_mappings.contains_key(k))
                    &&& forall|k: VirtualKey| k != src && v.schemes[i].skill_mappings.contains_key(k)
                        ==> w.schemes[i].skill_mappings[k] == v.schemes[i].skill_mappings[k]
                    &&& w.schemes[i].inventory_mappings == v.schemes[i].inventory_mappings
                    &&& effect == EditorEffect::SaveAndSync
                },
                CaptureTarget::SkillSource { old_source, old_target } => {
                    &&& !w.schemes[i].skill_mappings.contains_key(old_source)
                    &&& forall|k: VirtualKey| k != old_source ==> (w.schemes[i].skill_mappings.contains_key(k)
                        <==> v.schemes[i].skill_mappings.contains_key(k))
                    &&& w.schemes[i].inventory_mappings == v.schemes[i].inventory_mappings
                    &&& effect == EditorEffect::SaveAndSync
                },
                _ => w.schemes == v.schemes && effect == EditorEffect::Nothing,
            }
        }),
{
    crate::scheme::lemma_position_of(v.schemes, v.active_scheme_id);
    match position_of(v.schemes, v.active_scheme_id) {
        Some(k) => {
            if k < i {
                assert(v.schemes[k].id != v.active_scheme_id);
            }
            if k > i {
                assert(v.schemes[i].id != v.active_scheme_id);
            }
        },
        None => {
            assert(v.schemes[i].id != v.active_scheme_id);
        },
    }
    assert(position_of(v.schemes, v.active_scheme_id) == Some(i));
    reveal_strlit("delete");
    reveal_strlit("backspace");
    reveal_strlit("escape");
    assert(key != "escape"@) by {
        assert(key[0] != "escape"@[0]);
    }
    let (w, effect) = lowered_key_step(v, key, lang);
    assert(active_view(v) == Some(v.schemes[i]));
    match v.capturing->0 {
        CaptureTarget::Inventory(idx) => {
            if idx < 6 {
                assert(w.schemes == v.schemes.update(i, with_slot(v.schemes[i], idx as int, None)));
            }
        },
        CaptureTarget::SkillTarget(src) => {
            assert(w.schemes == v.schemes.update(i, without_skill(v.schemes[i], src)));
        },
        CaptureTarget::SkillSource { old_source, old_target } => {
            assert(w.schemes == v.schemes.update(i, without_skill(v.schemes[i], old_source)));
        },
        _ => {},
    }
}

/// A captured key that clashes with nothing is written into the captured
/// cell of the active scheme (the `i`-th, the first with the active id):
/// an inventory slot gets the key, a skill mapping gets it as its target,
/// or as its new source keeping its target; capturing stops, the message
/// goes, and every other scheme stays.
pub proof fn law_capture_sets_cell(v: EditorView, key: VirtualKey, lang: Language, i: int)
    requires
        v.capturing is Some,
        !key_in_use(v, key, v.capturing->0),
        0 <= i < v.schemes.len(),
        v.schemes[i].id == v.active_scheme_id,
        forall|j: int| 0 <= j < i ==> v.schemes[j].id != v.active_scheme_id,
        v.schemes[i].inventory_mappings.len() == 6,
    ensures
        ({
            let (w, effect) = apply_key_step(v, key, lang);
            &&& w.capturing is None
            &&& w.error_msg is None
            &&& w.schemes.len() == v.schemes.len()
            &&& forall|j: int| 0 <= j < v.schemes.len() && j != i ==> w.schemes[j] == v.schemes[j]
            &&& match v.capturing->0 {
                CaptureTarget::Inventory(idx) => idx < 6 ==> {
                    &&& w.schemes[i].inventory_mappings[idx as int] == Some(key)
                    &&& forall|q: int| 0 <= q < 6 && q != idx
                        ==> w.schemes[i].inventory_mappings[q] == v.schemes[i].inventory_mappings[q]
                    &&& effect == EditorEffect::SaveAndSync
                },
                CaptureTarget::SkillTarget(src) => {
                    &&& w.schemes[i].skill_mappings.contains_key(src)
                    &&& w.schemes[i].skill_mappings[src] == key
                    &&& forall|k: VirtualKey| k != src ==> (w.schemes[i].skill_mappings.contains_key(k)
                        <==> v.schemes[i].skill_mappings.contains_key(k))
                    &&& effect == EditorEffect::SaveAndSync
                },
                CaptureTarget::SkillSource { old_source, old_target } => {
                    &&& w.schemes[i].skill_mappings.contains_key(key)
                    &&& w.schemes[i].skill_mappings[key] == old_target
                    &&& key != old_source ==> !w.schemes[i].skill_mappings.contains_key(old_source)
                    &&& effect == EditorEffect::SaveAndSync
                },
                CaptureTarget::NewSkillSource => match v.pending_skill.1 {
                    None => w.schemes == v.schemes && w.pending_skill == (Some(key), None::<VirtualKey>),
                    Some(t) => {
                        &&& w.schemes[i].skill_mappings.contains_key(key)
                        &&& w.schemes[i].skill_mappings[key] == t
                        &&& w.pending_skill == (None::<VirtualKey>, None::<VirtualKey>)
                        &&& effect == EditorEffect::SaveAndSync
                    },
                },
                CaptureTarget::NewSkillTarget => match v.pending_skill.0 {
                    None => w.schemes == v.schemes && w.pending_skill == (None::<VirtualKey>, Some(key)),
                    Some(src) => {
                        &&& w.schemes[i].skill_mappings.contains_key(src)
                        &&& w.schemes[i].skill_mappings[src] == key
                        &&& w.pending_skill == (None::<VirtualKey>, None::<VirtualKey>)
                        &&& effect == EditorEffect::SaveAndSync
                    },
                },
            }
        }),
{
    crate::scheme::lemma_position_of(v.schemes, v.active_scheme_id);
    match position_of(v.schemes, v.active_scheme_id) {
        Some(k) => {
            if k < i {
                assert(v.schemes[k].id != v.active_scheme_id);
            }
            if k > i {
                assert(v.schemes[i].id != v.active_scheme_id);
            }
        },
        None => {
            assert(v.schemes[i].id != v.active_scheme_id);
        },
    }
    assert(position_of(v.schemes, v.active_scheme_id) == Some(i));
    let cleared = EditorView { capturing: None, error_msg: None, ..v };
    assert(position_of(cleared.schemes, cleared.active_scheme_id) == Some(i));
}

/// Escape stops capturing and leaves the schemes as they are.
pub proof fn law_escape_cancels(v: EditorView, lang: Language)
    requires
        v.editing_scheme_id is None,
        v.capturing is Some,
    ensures
        lowered_key_step(v, "escape"@, lang).0 == (EditorView { capturing: None, error_msg: None, ..v }),
        lowered_key_step(v, "escape"@, lang).1 == EditorEffect::Nothing,
{
}

/// A target key captured for a skill mapping takes effect once the schemes
/// are handed to the engine: in the game, unpaused, a press of the source
/// key is replaced by the captured key (unless the source is a control key
/// or blocked).
pub proof fn law_captured_skill_remaps(
    v: EditorView,
    source: VirtualKey,
    key: VirtualKey,
    lang: Language,
    remappings: Map<VirtualKey, VirtualKey>,
    scheme_change: Option<Seq<char>>,
)
    requires
        v.capturing == Some(CaptureTarget::SkillTarget(source)),
        !key_in_use(v, key, CaptureTarget::SkillTarget(source)),
        position_of(v.schemes, v.active_scheme_id) is Some,
        !v.schemes[position_of(v.schemes, v.active_scheme_id)->0].blocked_keys.contains(source),
        source != VirtualKey::F11,
        source != VirtualKey::F12,
    ensures
        ({
            let edited = apply_key_step(v, key, lang).0;
            let engine = EngineView {
                schemes: edited.schemes,
                active_index: match position_of(edited.schemes, edited.active_scheme_id) {
                    Some(i) => i,
                    None => 0,
                },
                paused: false,
                remappings,
                scheme_change,
            };
            engine_step(engine, true, press(source)).1 == HookResult::Replace(key)
        }),
{
    let edited = apply_key_step(v, key, lang).0;
    let i = position_of(v.schemes, v.active_scheme_id)->0;
    crate::scheme::lemma_position_of(v.schemes, v.active_scheme_id);
    crate::scheme::lemma_position_of(edited.schemes, edited.active_scheme_id);
    assert(edited.schemes == v.schemes.update(i, with_skill(v.schemes[i], source, key)));
    assert(edited.active_scheme_id == v.active_scheme_id);
    assert(edited.schemes[i].id == v.schemes[i].id);
    assert forall|j: int| 0 <= j < edited.schemes.len() implies #[trigger] edited.schemes[j].id == v.schemes[j].id by {}
    assert(position_of(edited.schemes, edited.active_scheme_id) == Some(i));
}

} // verus!
