use vstd::prelude::*;
use crate::i18n::{scheme_name_text, t_scheme_name, Language};
use crate::key::VirtualKey;
use crate::keymap::KeyMap;
use crate::text::str_eq;

verus! {

/// A named set of key mappings.
pub struct KeybindScheme {
    pub id: String,
    pub name: String,
    /// Skill keys: each pressed source key is replaced by its target.
    pub skill_mappings: KeyMap,
    /// The key that triggers each of the six inventory slots.
    pub inventory_mappings: [Option<VirtualKey>; 6],
    /// Keys to suppress while the game is active (e.g. the Win key, so that
    /// the Start menu does not open by accident).
    pub blocked_keys: Vec<VirtualKey>,
    pub toggle_key: VirtualKey,
}

/// The mathematical content of a scheme.
pub struct SchemeView {
    pub id: Seq<char>,
    pub name: Seq<char>,
    pub skill_mappings: Map<VirtualKey, VirtualKey>,
    pub inventory_mappings: Seq<Option<VirtualKey>>,
    pub blocked_keys: Seq<VirtualKey>,
    pub toggle_key: VirtualKey,
}

impl View for KeybindScheme {
    type V = SchemeView;

    open spec fn view(&self) -> SchemeView {
        SchemeView {
            id: self.id@,
            name: self.name@,
            skill_mappings: self.skill_mappings@,
            inventory_mappings: self.inventory_mappings@,
            blocked_keys: self.blocked_keys@,
            toggle_key: self.toggle_key,
        }
    }
}

/// The contents of a list of schemes.
pub open spec fn scheme_views(s: Seq<KeybindScheme>) -> Seq<SchemeView> {
    s.map_values(|k: KeybindScheme| k@)
}

/// The position of the first scheme with the given id.
pub open spec fn position_of(s: Seq<SchemeView>, id: Seq<char>) -> Option<int>
    decreases s.len(),
{
    if s.len() == 0 {
        None
    } else if s[0].id == id {
        Some(0)
    } else {
        match position_of(s.subrange(1, s.len() as int), id) {
            Some(i) => Some(i + 1),
            None => None,
        }
    }
}

/// `position_of` gives the least position holding the id, and `None`
/// exactly when no scheme has it.
pub proof fn lemma_position_of(s: Seq<SchemeView>, id: Seq<char>)
    ensures
        match position_of(s, id) {
            Some(i) => 0 <= i < s.len() && s[i].id == id && forall|j: int| 0 <= j < i ==> s[j].id != id,
            None => forall|j: int| 0 <= j < s.len() ==> s[j].id != id,
        },
    decreases s.len(),
{
    if s.len() > 0 && s[0].id != id {
        let t = s.subrange(1, s.len() as int);
        lemma_position_of(t, id);
        assert forall|j: int| 1 <= j < s.len() implies s[j] == t[j - 1] by {}
        match position_of(t, id) {
            Some(i) => {
                assert forall|j: int| 0 <= j < i + 1 implies s[j].id != id by {
                    if j > 0 {
                        assert(s[j] == t[j - 1]);
                    }
                }
            },
            None => {
                assert forall|j: int| 0 <= j < s.len() implies s[j].id != id by {
                    if j > 0 {
                        assert(s[j] == t[j - 1]);
                    }
                }
            },
        }
    }
}

/// Whether some scheme has the id.
pub open spec fn has_id(s: Seq<SchemeView>, id: Seq<char>) -> bool {
    exists|j: int| 0 <= j < s.len() && s[j].id == id
}

/// The position of the first scheme in `schemes` whose id is `id`.
pub fn find_scheme(schemes: &Vec<KeybindScheme>, id: &str) -> (r: Option<usize>)
    ensures
        match r {
            Some(i) => position_of(scheme_views(schemes@), id@) == Some(i as int),
            None => position_of(scheme_views(schemes@), id@) is None,
        },
        (r is Some) == has_id(scheme_views(schemes@), id@),
{
    let ghost v = scheme_views(schemes@);
    proof {
        lemma_position_of(v, id@);
    }
    let mut i: usize = 0;
    while i < schemes.len()
        invariant
            v == scheme_views(schemes@),
            i <= schemes@.len(),
            forall|j: int| 0 <= j < i ==> v[j].id != id@,
            match position_of(v, id@) {
                Some(p) => 0 <= p < v.len() && v[p].id == id@ && forall|j: int| 0 <= j < p ==> v[j].id != id@,
                None => forall|j: int| 0 <= j < v.len() ==> v[j].id != id@,
            },
        decreases schemes@.len() - i,
    {
        assert(v[i as int] == schemes@[i as int]@);
        if str_eq(schemes[i].id.as_str(), id) {
            return Some(i);
        }
        i = i + 1;
    }
    None
}

/// Copies a list of keys.
fn copy_keys(keys: &Vec<VirtualKey>) -> (r: Vec<VirtualKey>)
    ensures
        r@ == keys@,
{
    let mut r: Vec<VirtualKey> = Vec::new();
    let mut i: usize = 0;
    while i < keys.len()
        invariant
            i <= keys@.len(),
            r@ =~= keys@.subrange(0, i as int),
        decreases keys@.len() - i,
    {
        r.push(keys[i]);
        i = i + 1;
    }
    assert(r@ =~= keys@);
    r
}

impl KeybindScheme {
    /// A copy of this scheme.
    pub fn duplicate(&self) -> (r: KeybindScheme)
        ensures
            r@ == self@,
    {
        KeybindScheme {
            id: self.id.clone(),
            name: self.name.clone(),
            skill_mappings: self.skill_mappings.duplicate(),
            inventory_mappings: self.inventory_mappings,
            blocked_keys: copy_keys(&self.blocked_keys),
            toggle_key: self.toggle_key,
        }
    }

    /// The built-in scheme: no mappings, the Win keys blocked, F12 as the
    /// toggle key, named as the first scheme in the given language.
    pub fn default_dota(lang: Language) -> (r: KeybindScheme)
        ensures
            r@.id == "default-dota"@,
            r@.name == scheme_name_text(lang, 1),
            r@.skill_mappings == Map::<VirtualKey, VirtualKey>::empty(),
            r@.inventory_mappings == seq![None::<VirtualKey>, None, None, None, None, None],
            r@.blocked_keys == seq![VirtualKey::LWin, VirtualKey::RWin],
            r@.toggle_key == VirtualKey::F12,
    {
        let mut blocked: Vec<VirtualKey> = Vec::new();
        blocked.push(VirtualKey::LWin);
        blocked.push(VirtualKey::RWin);
        let inv: [Option<VirtualKey>; 6] = [None, None, None, None, None, None];
        let r = KeybindScheme {
            id: String::from_str("default-dota"),
            name: t_scheme_name(lang, 1),
            skill_mappings: KeyMap::new(),
            inventory_mappings: inv,
            blocked_keys: blocked,
            toggle_key: VirtualKey::F12,
        };
        assert(r@.inventory_mappings =~= seq![None::<VirtualKey>, None, None, None, None, None]);
        assert(r@.blocked_keys =~= seq![VirtualKey::LWin, VirtualKey::RWin]);
        r
    }
}

impl Clone for KeybindScheme {
    fn clone(&self) -> (r: KeybindScheme)
        ensures
            r@ == self@,
    {
        self.duplicate()
    }
}

} // verus!
