use vstd::prelude::*;
use crate::i18n::{scheme_name_text, Language};
use crate::scheme::{find_scheme, has_id, lemma_position_of, position_of, scheme_views, KeybindScheme, SchemeView};

verus! {

/// The schemes other than those with the given id, in order.
pub open spec fn without_id(s: Seq<SchemeView>, id: Seq<char>) -> Seq<SchemeView> {
    s.filter(|v: SchemeView| v.id != id)
}

/// Removing an id that no scheme has changes nothing.
pub proof fn lemma_without_absent_id(s: Seq<SchemeView>, id: Seq<char>)
    requires
        !has_id(s, id),
    ensures
        without_id(s, id) == s,
    decreases s.len(),
{
    reveal_with_fuel(Seq::filter, 1);
    if s.len() > 0 {
        let t = s.drop_last();
        assert(!has_id(t, id)) by {
            if has_id(t, id) {
                let j = choose|j: int| 0 <= j < t.len() && t[j].id == id;
                assert(s[j].id == id);
            }
        }
        lemma_without_absent_id(t, id);
        assert(s[s.len() - 1].id != id);
        assert(t.push(s.last()) =~= s);
    }
}

/// The application configuration: the schemes and which one is active.
pub struct AppConfig {
    pub active_scheme_id: String,
    pub schemes: Vec<KeybindScheme>,
}

impl AppConfig {
    /// The configuration of a first start: only the built-in scheme, and it
    /// is active.
    pub fn default(lang: Language) -> (r: AppConfig)
        ensures
            scheme_views(r.schemes@).len() == 1,
            r.schemes@[0]@.id == "default-dota"@,
            r.schemes@[0]@.name == scheme_name_text(lang, 1),
            r.active_scheme_id@ == "default-dota"@,
    {
        let default_scheme = KeybindScheme::default_dota(lang);
        let active_scheme_id = default_scheme.id.clone();
        let mut schemes: Vec<KeybindScheme> = Vec::new();
        schemes.push(default_scheme);
        AppConfig { active_scheme_id, schemes }
    }

    /// The active scheme: the first scheme whose id is the active id.
    pub fn active_scheme(&self) -> (r: Option<&KeybindScheme>)
        ensures
            match r {
                Some(s) => position_of(scheme_views(self.schemes@), self.active_scheme_id@) is Some
                    && s@ == scheme_views(self.schemes@)[position_of(scheme_views(self.schemes@), self.active_scheme_id@)->0],
                None => position_of(scheme_views(self.schemes@), self.active_scheme_id@) is None,
            },
    {
        proof {
            lemma_position_of(scheme_views(self.schemes@), self.active_scheme_id@);
        }
        match find_scheme(&self.schemes, self.active_scheme_id.as_str()) {
            Some(i) => Some(&self.schemes[i]),
            None => None,
        }
    }

    /// The active scheme, for changing it in place.
    pub fn active_scheme_mut(&mut self) -> (r: Option<&mut KeybindScheme>)
        ensures
            final(self).active_scheme_id == old(self).active_scheme_id,
            match position_of(scheme_views(old(self).schemes@), old(self).active_scheme_id@) {
                Some(i) => r matches Some(m) && *m == old(self).schemes@[i]
                    && final(self).schemes@ == old(self).schemes@.update(i, *final(m)),
                None => r is None && final(self).schemes@ == old(self).schemes@,
            },
    {
        proof {
            lemma_position_of(scheme_views(self.schemes@), self.active_scheme_id@);
        }
        match find_scheme(&self.schemes, self.active_scheme_id.as_str()) {
            Some(i) => Some(&mut self.schemes[i]),
            None => None,
        }
    }

    /// Appends a scheme.
    pub fn add_scheme(&mut self, scheme: KeybindScheme)
        ensures
            final(self).schemes@ == old(self).schemes@.push(scheme),
            final(self).active_scheme_id == old(self).active_scheme_id,
    {
        self.schemes.push(scheme);
    }

    /// Removes every scheme with the id; true when one was removed.
    pub fn remove_scheme(&mut self, id: &str) -> (r: bool)
        ensures
            scheme_views(final(self).schemes@) == without_id(scheme_views(old(self).schemes@), id@),
            r == has_id(scheme_views(old(self).schemes@), id@),
            final(self).active_scheme_id == old(self).active_scheme_id,
    {
        let ghost v = scheme_views(self.schemes@);
        let mut kept: Vec<KeybindScheme> = Vec::new();
        let mut i: usize = 0;
        while i < self.schemes.len()
            invariant
                v == scheme_views(self.schemes@),
                i <= self.schemes@.len(),
                scheme_views(kept@) == without_id(v.take(i as int), id@),
                (kept@.len() < i) == has_id(v.take(i as int), id@),
            decreases self.schemes@.len() - i,
        {
            let ghost before = kept@;
            proof {
                reveal_with_fuel(Seq::filter, 1);
                assert(v.take(i + 1).drop_last() =~= v.take(i as int));
                assert(v[i as int] == self.schemes@[i as int]@);
            }
            let keep = !crate::text::str_eq(self.schemes[i].id.as_str(), id);
            if keep {
                kept.push(self.schemes[i].duplicate());
                proof {
                    assert(scheme_views(kept@) =~= scheme_views(before).push(v[i as int]));
                }
            }
            proof {
                let t = v.take(i + 1);
                if has_id(v.take(i as int), id@) {
                    let j = choose|j: int| 0 <= j < i && v.take(i as int)[j].id == id@;
                    assert(t[j].id == id@);
                }
                if has_id(t, id@) && keep {
                    let j = choose|j: int| 0 <= j < t.len() && t[j].id == id@;
                    assert(j != i);
                    assert(v.take(i as int)[j].id == id@);
                }
                if !keep {
                    assert(t[i as int].id == id@);
                }
            }
            i = i + 1;
        }
        proof {
            assert(v.take(self.schemes@.len() as int) =~= v);
        }
        let removed = kept.len() < self.schemes.len();
        self.schemes = kept;
        removed
    }

    /// Makes the scheme with the id active; false, with nothing changed,
    /// when no scheme has it.
    pub fn switch_scheme(&mut self, id: &str) -> (r: bool)
        ensures
            r == has_id(scheme_views(old(self).schemes@), id@),
            final(self).schemes@ == old(self).schemes@,
            final(self).active_scheme_id@ == (if r { id@ } else { old(self).active_scheme_id@ }),
    {
        if find_scheme(&self.schemes, id).is_some() {
            self.active_scheme_id = String::from_str(id);
            true
        } else {
            false
        }
    }
}

/// After a successful switch to `id`, the active scheme is the first scheme
/// with that id.
pub proof fn law_switch_then_active(schemes: Seq<SchemeView>, id: Seq<char>)
    requires
        has_id(schemes, id),
    ensures
        position_of(schemes, id) is Some,
        schemes[position_of(schemes, id)->0].id == id,
{
    lemma_position_of(schemes, id);
}

/// Adding a scheme with a new id and then removing that id gives back the
/// schemes as they were.
pub proof fn law_add_then_remove(schemes: Seq<SchemeView>, added: SchemeView)
    requires
        !has_id(schemes, added.id),
    ensures
        has_id(schemes.push(added), added.id),
        without_id(schemes.push(added), added.id) == schemes,
{
    reveal_with_fuel(Seq::filter, 1);
    let s = schemes.push(added);
    assert(s[s.len() - 1].id == added.id);
    assert(s.drop_last() =~= schemes);
    lemma_without_absent_id(schemes, added.id);
}

} // verus!
