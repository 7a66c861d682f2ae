use vstd::prelude::*;
use std::sync::{Arc, Mutex};
use crate::event::RawKeyEvent;
use crate::hook::HookResult;
use crate::key::VirtualKey;
use crate::keymap::KeyMap;
use crate::monitor::{read_state, GameState};
use crate::scheme::{find_scheme, position_of, scheme_views, KeybindScheme, SchemeView};

verus! {

/// The numpad key that triggers inventory slot `slot` in Warcraft III:
/// slots 1-6 are Numpad7, Numpad8, Numpad4, Numpad5, Numpad1, Numpad2.
pub open spec fn slot_numpad_key(slot: int) -> VirtualKey {
    if slot == 0 {
        VirtualKey::Numpad7
    } else if slot == 1 {
        VirtualKey::Numpad8
    } else if slot == 2 {
        VirtualKey::Numpad4
    } else if slot == 3 {
        VirtualKey::Numpad5
    } else if slot == 4 {
        VirtualKey::Numpad1
    } else {
        VirtualKey::Numpad2
    }
}

/// The numpad key of an inventory slot.
pub fn inventory_numpad_key(slot: usize) -> (r: VirtualKey)
    requires
        slot < 6,
    ensures
        r == slot_numpad_key(slot as int),
{
    match slot {
        0 => VirtualKey::Numpad7,
        1 => VirtualKey::Numpad8,
        2 => VirtualKey::Numpad4,
        3 => VirtualKey::Numpad5,
        4 => VirtualKey::Numpad1,
        _ => VirtualKey::Numpad2,
    }
}

/// The first inventory slot bound to `key`.
pub open spec fn inventory_slot_of(inv: Seq<Option<VirtualKey>>, key: VirtualKey) -> Option<int> {
    if inv[0] == Some(key) {
        Some(0)
    } else if inv[1] == Some(key) {
        Some(1)
    } else if inv[2] == Some(key) {
        Some(2)
    } else if inv[3] == Some(key) {
        Some(3)
    } else if inv[4] == Some(key) {
        Some(4)
    } else if inv[5] == Some(key) {
        Some(5)
    } else {
        None
    }
}

/// The key that a press of `key` is replaced by under a scheme: its skill
/// mapping if it has one, else the numpad key of the first inventory slot
/// bound to it.
pub open spec fn remap_target(scheme: SchemeView, key: VirtualKey) -> Option<VirtualKey> {
    if scheme.skill_mappings.contains_key(key) {
        Some(scheme.skill_mappings[key])
    } else {
        match inventory_slot_of(scheme.inventory_mappings, key) {
            Some(slot) => Some(slot_numpad_key(slot)),
            None => None,
        }
    }
}

/// The mathematical state of a remapping engine.
pub struct EngineView {
    pub schemes: Seq<SchemeView>,
    pub active_index: int,
    pub paused: bool,
    /// Pressed source keys that were replaced, with their replacements, so
    /// that their releases are replaced too.
    pub remappings: Map<VirtualKey, VirtualKey>,
    /// The id of the scheme that F11 switched to, until it is taken.
    pub scheme_change: Option<Seq<char>>,
}

/// The active index points into the schemes, or is 0 when there are none.
pub open spec fn engine_wf(s: EngineView) -> bool {
    &&& 0 <= s.active_index
    &&& (s.schemes.len() == 0 ==> s.active_index == 0)
    &&& (s.schemes.len() > 0 ==> s.active_index < s.schemes.len())
}

/// The active index after F11: the next scheme, cyclically, when there
/// are at least two.
pub open spec fn next_scheme_index(index: int, count: int) -> int {
    if count > 1 {
        (index + 1) % count
    } else {
        index
    }
}

/// What the engine does with a key event, and its state afterwards, given
/// whether the game is running and focused.
pub open spec fn engine_step(s: EngineView, game_active: bool, e: RawKeyEvent) -> (EngineView, HookResult) {
    if !game_active {
        (s, HookResult::Pass)
    } else if e.pressed && e.key == VirtualKey::F12 {
        (EngineView { paused: !s.paused, ..s }, HookResult::Suppress)
    } else if e.pressed && e.key == VirtualKey::F11 {
        if s.schemes.len() > 1 {
            (
                EngineView {
                    active_index: next_scheme_index(s.active_index, s.schemes.len() as int),
                    remappings: Map::empty(),
                    scheme_change: Some(s.schemes[next_scheme_index(s.active_index, s.schemes.len() as int)].id),
                    ..s
                },
                HookResult::Suppress,
            )
        } else {
            (s, HookResult::Suppress)
        }
    } else if !e.pressed && s.remappings.contains_key(e.key) {
        (EngineView { remappings: s.remappings.remove(e.key), ..s }, HookResult::Replace(s.remappings[e.key]))
    } else if !(0 <= s.active_index < s.schemes.len()) {
        (s, HookResult::Pass)
    } else {
        let scheme = s.schemes[s.active_index];
        if e.pressed && scheme.blocked_keys.contains(e.key) {
            (s, HookResult::Suppress)
        } else if s.paused {
            (s, HookResult::Pass)
        } else if e.pressed {
            match remap_target(scheme, e.key) {
                Some(t) => (EngineView { remappings: s.remappings.insert(e.key, t), ..s }, HookResult::Replace(t)),
                None => (s, HookResult::Pass),
            }
        } else {
            (s, HookResult::Pass)
        }
    }
}

/// The engine would index into an empty scheme list: F11 pressed while the
/// game is active and there are no schemes.
pub open spec fn cycles_without_schemes(s: EngineView, game_active: bool, e: RawKeyEvent) -> bool {
    game_active && e.pressed && e.key == VirtualKey::F11 && s.schemes.len() == 0
}

/// Whether the key is in the list.
pub fn key_listed(keys: &Vec<VirtualKey>, key: VirtualKey) -> (r: bool)
    ensures
        r == keys@.contains(key),
{
    let mut i: usize = 0;
    while i < keys.len()
        invariant
            i <= keys@.len(),
            forall|j: int| 0 <= j < i ==> keys@[j] != key,
        decreases keys@.len() - i,
    {
        if keys[i] == key {
            assert(keys@[i as int] == key);
            return true;
        }
        i = i + 1;
    }
    false
}

/// The first inventory slot bound to `key`.
fn find_inventory_slot(inv: &[Option<VirtualKey>; 6], key: VirtualKey) -> (r: Option<usize>)
    ensures
        match r {
            Some(i) => inventory_slot_of(inv@, key) == Some(i as int),
            None => inventory_slot_of(inv@, key) is None,
        },
{
    let mut i: usize = 0;
    while i < 6
        invariant
            i <= 6,
            forall|j: int| 0 <= j < i ==> inv@[j] != Some(key),
        decreases 6 - i,
    {
        if inv[i] == Some(key) {
            return Some(i);
        }
        i = i + 1;
    }
    None
}

/// Thread-safe wrapper for RemappingEngine, used by the keyboard hook callback.
pub type SharedEngine = Arc<Mutex<RemappingEngine>>;

/// The keyboard remapping engine: decides, for each key event, whether it
/// passes, is suppressed or is replaced.
pub struct RemappingEngine {
    /// All available schemes
    schemes: Vec<KeybindScheme>,
    /// Index of the active scheme
    active_index: usize,
    /// In-game pause state (F12 toggle) - pauses remapping but keeps blocked keys active
    paused: bool,
    /// Shared game state from detection service
    game_state: Arc<Mutex<GameState>>,
    /// Tracks currently pressed source keys that have been remapped,
    /// so their release events can also be replaced.
    active_remappings: KeyMap,
    /// The id of the scheme that F11 switched to, until the UI takes it.
    scheme_change: Option<String>,
}

impl View for RemappingEngine {
    type V = EngineView;

    closed spec fn view(&self) -> EngineView {
        EngineView {
            schemes: scheme_views(self.schemes@),
            active_index: self.active_index as int,
            paused: self.paused,
            remappings: self.active_remappings@,
            scheme_change: match self.scheme_change {
                Some(id) => Some(id@),
                None => None,
            },
        }
    }
}

impl RemappingEngine {
    /// The active index points into the schemes.
    #[verifier::type_invariant]
    spec fn wf(self) -> bool {
        engine_wf(self@)
    }

    /// The shared game state that the engine consults.
    pub closed spec fn shared_state(&self) -> Arc<Mutex<GameState>> {
        self.game_state
    }

    pub fn new(game_state: Arc<Mutex<GameState>>) -> (r: RemappingEngine)
        ensures
            r@.schemes == Seq::<SchemeView>::empty(),
            r@.active_index == 0,
            !r@.paused,
            r@.remappings == Map::<VirtualKey, VirtualKey>::empty(),
            r@.scheme_change is None,
            r.shared_state() == game_state,
            engine_wf(r@),
    {
        let r = RemappingEngine {
            schemes: Vec::new(),
            active_index: 0,
            paused: false,
            game_state,
            active_remappings: KeyMap::new(),
            scheme_change: None,
        };
        assert(r@.schemes =~= Seq::<SchemeView>::empty());
        r
    }

    /// Replaces the schemes; the active one is the first with id
    /// `active_id`, or the first scheme when none has it.
    pub fn set_schemes(&mut self, schemes: Vec<KeybindScheme>, active_id: &str)
        ensures
            final(self)@ == (EngineView {
                schemes: scheme_views(schemes@),
                active_index: match position_of(scheme_views(schemes@), active_id@) {
                    Some(i) => i,
                    None => 0,
                },
                ..old(self)@
            }),
            final(self).shared_state() == old(self).shared_state(),
            engine_wf(final(self)@),
    {
        proof {
            use_type_invariant(&*self);
        }
        let index = match find_scheme(&schemes, active_id) {
            Some(i) => i,
            None => 0,
        };
        proof {
            crate::scheme::lemma_position_of(scheme_views(schemes@), active_id@);
        }
        self.active_index = 0;
        self.schemes = schemes;
        self.active_index = index;
    }

    /// Set the active scheme by id (from UI); an unknown id changes nothing.
    pub fn set_active_scheme(&mut self, id: &str)
        ensures
            match position_of(old(self)@.schemes, id@) {
                Some(i) => final(self)@ == (EngineView {
                    active_index: i,
                    remappings: Map::empty(),
                    ..old(self)@
                }),
                None => final(self)@ == old(self)@,
            },
            final(self).shared_state() == old(self).shared_state(),
            engine_wf(final(self)@),
    {
        proof {
            use_type_invariant(&*self);
        }
        proof {
            crate::scheme::lemma_position_of(self@.schemes, id@);
        }
        if let Some(idx) = find_scheme(&self.schemes, id) {
            self.active_index = idx;
            self.active_remappings = KeyMap::new();
        }
    }

    /// Get the id of the currently active scheme
    pub fn active_scheme_id(&self) -> (r: Option<&str>)
        ensures
            match r {
                Some(id) => 0 <= self@.active_index < self@.schemes.len()
                    && id@ == self@.schemes[self@.active_index].id,
                None => !(0 <= self@.active_index < self@.schemes.len()),
            },
    {
        proof {
            use_type_invariant(&*self);
        }
        if self.active_index < self.schemes.len() {
            Some(self.schemes[self.active_index].id.as_str())
        } else {
            None
        }
    }

    /// Whether the scheme was changed in-game (F11), returns the new id if
    /// changed: the id of the scheme the last F11 switch went to, once.
    pub fn take_scheme_change(&mut self) -> (r: Option<String>)
        ensures
            match r {
                Some(id) => old(self)@.scheme_change == Some(id@),
                None => old(self)@.scheme_change is None,
            },
            final(self)@ == (EngineView { scheme_change: None, ..old(self)@ }),
            engine_wf(final(self)@),
            final(self).shared_state() == old(self).shared_state(),
    {
        proof {
            use_type_invariant(&*self);
        }
        // This is checked by UI on render to detect F11 changes
        let mut change: Option<String> = None;
        std::mem::swap(&mut change, &mut self.scheme_change);
        change
    }

    /// How many schemes the engine holds.
    pub fn scheme_count(&self) -> (r: usize)
        ensures
            r == self@.schemes.len(),
    {
        self.schemes.len()
    }

    pub fn is_paused(&self) -> (r: bool)
        ensures
            r == self@.paused,
    {
        self.paused
    }

    /// Whether the game is currently running and focused; another thread
    /// keeps that state, so nothing is known of the answer.
    fn is_game_active(&self) -> bool {
        read_state(&self.game_state).is_active()
    }

    /// Cycle to the next scheme, returns the new active scheme id
    fn cycle_scheme(&mut self) -> (r: &str)
        requires
            engine_wf(old(self)@),
            old(self)@.schemes.len() > 0,
        ensures
            r@ == final(self)@.schemes[final(self)@.active_index].id,
            final(self)@ == (if old(self)@.schemes.len() > 1 {
                EngineView {
                    active_index: next_scheme_index(old(self)@.active_index, old(self)@.schemes.len() as int),
                    remappings: Map::empty(),
                    ..old(self)@
                }
            } else {
                old(self)@
            }),
            final(self).shared_state() == old(self).shared_state(),
    {
        if self.schemes.len() > 1 {
            self.active_index = (self.active_index + 1) % self.schemes.len();
            self.active_remappings = KeyMap::new();
        }
        self.schemes[self.active_index].id.as_str()
    }

    /// Handles a key event given whether the game is running and focused.
    pub fn handle_event(&mut self, game_active: bool, event: &RawKeyEvent) -> (r: HookResult)
        requires
            !cycles_without_schemes(old(self)@, game_active, *event),
        ensures
            final(self)@ == engine_step(old(self)@, game_active, *event).0,
            r == engine_step(old(self)@, game_active, *event).1,
            final(self).shared_state() == old(self).shared_state(),
            engine_wf(final(self)@),
    {
        proof {
            use_type_invariant(&*self);
        }
        let ghost s0 = self@;
        if !game_active {
            return HookResult::Pass;
        }

        // Handle toggle key: F12 toggles pause state, suppress the key
        if event.pressed && event.key == VirtualKey::F12 {
            self.paused = !self.paused;
            return HookResult::Suppress;
        }

        // Handle scheme switch: F11 cycles to next scheme
        if event.pressed && event.key == VirtualKey::F11 {
            let switches = self.schemes.len() > 1;
            let id = self.cycle_scheme().to_owned();
            if switches {
                self.scheme_change = Some(id);
            }
            return HookResult::Suppress;
        }

        // Key up: if this source key was previously remapped, replace the
        // release too, even while paused or blocked
        if !event.pressed {
            let mut remappings = KeyMap::new();
            std::mem::swap(&mut remappings, &mut self.active_remappings);
            let removed = remappings.remove(&event.key);
            self.active_remappings = remappings;
            if let Some(target) = removed {
                return HookResult::Replace(target);
            }
            assert(s0.remappings.remove(event.key) =~= s0.remappings);
        }

        if self.active_index >= self.schemes.len() {
            return HookResult::Pass;
        }
        let scheme = &self.schemes[self.active_index];
        assert(scheme@ == self@.schemes[self@.active_index]);

        // Always suppress blocked keys when game is active (even when paused)
        if event.pressed && key_listed(&scheme.blocked_keys, event.key) {
            return HookResult::Suppress;
        }

        if self.paused {
            return HookResult::Pass;
        }

        if event.pressed {
            // Key down: check mappings
            // Check skill mappings
            if let Some(target) = scheme.skill_mappings.get(&event.key) {
                let t = *target;
                let mut remappings = KeyMap::new();
                std::mem::swap(&mut remappings, &mut self.active_remappings);
                remappings.insert(event.key, t);
                self.active_remappings = remappings;
                return HookResult::Replace(t);
            }

            // Check inventory mappings: source key → numpad key
            if let Some(slot) = find_inventory_slot(&scheme.inventory_mappings, event.key) {
                let t = inventory_numpad_key(slot);
                assert(remap_target(scheme@, event.key) == Some(t));
                let mut remappings = KeyMap::new();
                std::mem::swap(&mut remappings, &mut self.active_remappings);
                remappings.insert(event.key, t);
                self.active_remappings = remappings;
                return HookResult::Replace(t);
            }
            HookResult::Pass
        } else {
            HookResult::Pass
        }
    }

    /// Handles a key event from the keyboard hook, consulting the shared
    /// game state first. An F11 press in the game with no scheme to switch
    /// to is suppressed and changes nothing.
    pub fn process_event(&mut self, event: &RawKeyEvent) -> (r: HookResult)
        ensures
            (final(self)@ == engine_step(old(self)@, true, *event).0 && r == engine_step(old(self)@, true, *event).1)
                || (final(self)@ == engine_step(old(self)@, false, *event).0 && r == engine_step(old(self)@, false, *event).1),
            final(self).shared_state() == old(self).shared_state(),
            engine_wf(final(self)@),
    {
        proof {
            use_type_invariant(&*self);
        }
        let active = self.is_game_active();
        if active && event.pressed && event.key == VirtualKey::F11 && self.schemes.len() == 0 {
            return HookResult::Suppress;
        }
        self.handle_event(active, event)
    }
}

/// A key press event.
pub open spec fn press(key: VirtualKey) -> RawKeyEvent {
    RawKeyEvent { key, pressed: true }
}

/// A key release event.
pub open spec fn release(key: VirtualKey) -> RawKeyEvent {
    RawKeyEvent { key, pressed: false }
}

/// While the game is not running and focused, every event passes and the
/// engine's state stays as it is.
pub proof fn law_inactive_game_passes(s: EngineView, e: RawKeyEvent)
    ensures
        engine_step(s, false, e) == (s, HookResult::Pass),
{
}

/// No event changes the schemes, and every step keeps the active index
/// within the schemes.
pub proof fn law_step_keeps_schemes(s: EngineView, game_active: bool, e: RawKeyEvent)
    requires
        engine_wf(s),
        !cycles_without_schemes(s, game_active, e),
    ensures
        engine_step(s, game_active, e).0.schemes == s.schemes,
        engine_wf(engine_step(s, game_active, e).0),
{
}

/// F12 pauses and resumes remapping: each press is suppressed and flips the
/// pause flag, so two presses restore the engine's state.
pub proof fn law_f12_toggles_pause(s: EngineView)
    ensures
        engine_step(s, true, press(VirtualKey::F12)).1 == HookResult::Suppress,
        engine_step(s, true, press(VirtualKey::F12)).0 == (EngineView { paused: !s.paused, ..s }),
        engine_step(engine_step(s, true, press(VirtualKey::F12)).0, true, press(VirtualKey::F12)).0 == s,
{
}

/// Blocked keys are suppressed whenever the game is active, even while
/// remapping is paused, and the state stays as it is.
pub proof fn law_blocked_key_suppressed(s: EngineView, key: VirtualKey)
    requires
        0 <= s.active_index < s.schemes.len(),
        s.schemes[s.active_index].blocked_keys.contains(key),
        key != VirtualKey::F11,
        key != VirtualKey::F12,
    ensures
        engine_step(s, true, press(key)) == (s, HookResult::Suppress),
{
}

/// While paused, a press of a key that is neither blocked nor a control key
/// passes unchanged.
pub proof fn law_paused_passes(s: EngineView, key: VirtualKey)
    requires
        s.paused,
        key != VirtualKey::F11,
        key != VirtualKey::F12,
        !(0 <= s.active_index < s.schemes.len() && s.schemes[s.active_index].blocked_keys.contains(key)),
    ensures
        engine_step(s, true, press(key)) == (s, HookResult::Pass),
{
}

/// A press replaced by a target is followed by a release replaced by the
/// same target, and the release forgets the replacement again.
pub proof fn law_release_follows_press(s: EngineView, key: VirtualKey, target: VirtualKey)
    requires
        engine_step(s, true, press(key)).1 == HookResult::Replace(target),
    ensures
        engine_step(engine_step(s, true, press(key)).0, true, release(key)).1 == HookResult::Replace(target),
        engine_step(engine_step(s, true, press(key)).0, true, release(key)).0 == (EngineView {
            remappings: s.remappings.remove(key),
            ..s
        }),
{
    let s1 = engine_step(s, true, press(key)).0;
    assert(s1.remappings.insert(key, target).remove(key) =~= s.remappings.remove(key)) by {
        assert(s1.remappings == s.remappings.insert(key, target));
    }
    assert(s1.remappings.remove(key) =~= s.remappings.remove(key));
}

/// The release of a key whose press was replaced is replaced by the same
/// target whenever the game is active, also while remapping is paused, so
/// that the target key is never left held; the replacement is forgotten.
pub proof fn law_release_replaced(s: EngineView, key: VirtualKey)
    requires
        s.remappings.contains_key(key),
    ensures
        engine_step(s, true, release(key)) == (
            EngineView { remappings: s.remappings.remove(key), ..s },
            HookResult::Replace(s.remappings[key]),
        ),
{
}

/// A switch by F11 is reported: the engine records the id of the scheme it
/// switched to until it is taken.
pub proof fn law_f11_reports_switch(s: EngineView)
    requires
        engine_wf(s),
        s.schemes.len() > 1,
    ensures
        ({
            let next = engine_step(s, true, press(VirtualKey::F11)).0;
            next.scheme_change == Some(next.schemes[next.active_index].id)
        }),
{
}

/// The numpad keys that Warcraft III binds to the six inventory slots, in
/// slot order.
pub open spec fn inventory_numpad_keys() -> Seq<VirtualKey> {
    seq![
        VirtualKey::Numpad7,
        VirtualKey::Numpad8,
        VirtualKey::Numpad4,
        VirtualKey::Numpad5,
        VirtualKey::Numpad1,
        VirtualKey::Numpad2,
    ]
}

/// In the game, unpaused, a press of a key that has no skill mapping and is
/// not blocked, held by inventory slot `i` and by no earlier slot, is
/// replaced by that slot's numpad key, and the replacement is remembered
/// for the release.
pub proof fn law_inventory_press_replaced(s: EngineView, key: VirtualKey, i: int)
    requires
        0 <= s.active_index < s.schemes.len(),
        !s.paused,
        key != VirtualKey::F11,
        key != VirtualKey::F12,
        s.schemes[s.active_index].inventory_mappings.len() == 6,
        !s.schemes[s.active_index].skill_mappings.contains_key(key),
        !s.schemes[s.active_index].blocked_keys.contains(key),
        0 <= i < 6,
        s.schemes[s.active_index].inventory_mappings[i] == Some(key),
        forall|j: int| 0 <= j < i ==> s.schemes[s.active_index].inventory_mappings[j] != Some(key),
    ensures
        engine_step(s, true, press(key)) == (
            EngineView { remappings: s.remappings.insert(key, inventory_numpad_keys()[i]), ..s },
            HookResult::Replace(inventory_numpad_keys()[i]),
        ),
{
    let inv = s.schemes[s.active_index].inventory_mappings;
    if i == 0 {
    } else if i == 1 {
        assert(inv[0] != Some(key));
    } else if i == 2 {
        assert(inv[0] != Some(key) && inv[1] != Some(key));
    } else if i == 3 {
        assert(inv[0] != Some(key) && inv[1] != Some(key) && inv[2] != Some(key));
    } else if i == 4 {
        assert(inv[0] != Some(key) && inv[1] != Some(key) && inv[2] != Some(key) && inv[3] != Some(key));
    } else {
        assert(inv[0] != Some(key) && inv[1] != Some(key) && inv[2] != Some(key) && inv[3] != Some(key)
            && inv[4] != Some(key));
    }
}

/// In the game, unpaused, a press of a key with a skill mapping is replaced
/// by its target, whatever inventory slots hold it.
pub proof fn law_skill_press_replaced(s: EngineView, key: VirtualKey)
    requires
        0 <= s.active_index < s.schemes.len(),
        !s.paused,
        key != VirtualKey::F11,
        key != VirtualKey::F12,
        s.schemes[s.active_index].skill_mappings.contains_key(key),
        !s.schemes[s.active_index].blocked_keys.contains(key),
    ensures
        engine_step(s, true, press(key)) == (
            EngineView {
                remappings: s.remappings.insert(key, s.schemes[s.active_index].skill_mappings[key]),
                ..s
            },
            HookResult::Replace(s.schemes[s.active_index].skill_mappings[key]),
        ),
{
}

/// In the game, a press of a key that no skill mapping, inventory slot or
/// blocked list of the active scheme holds passes unchanged.
pub proof fn law_free_key_passes(s: EngineView, key: VirtualKey)
    requires
        0 <= s.active_index < s.schemes.len(),
        key != VirtualKey::F11,
        key != VirtualKey::F12,
        s.schemes[s.active_index].inventory_mappings.len() == 6,
        !s.schemes[s.active_index].skill_mappings.contains_key(key),
        !s.schemes[s.active_index].blocked_keys.contains(key),
        forall|j: int| 0 <= j < 6 ==> s.schemes[s.active_index].inventory_mappings[j] != Some(key),
    ensures
        engine_step(s, true, press(key)) == (s, HookResult::Pass),
{
    let inv = s.schemes[s.active_index].inventory_mappings;
    assert(inv[0] != Some(key) && inv[1] != Some(key) && inv[2] != Some(key) && inv[3] != Some(key)
        && inv[4] != Some(key) && inv[5] != Some(key));
}

/// A release of a key whose press was not replaced passes unchanged.
pub proof fn law_unremapped_release_passes(s: EngineView, key: VirtualKey)
    requires
        !s.remappings.contains_key(key),
    ensures
        engine_step(s, true, release(key)) == (s, HookResult::Pass),
{
}

/// A press of a key that the active scheme neither maps nor blocks passes
/// unchanged.
pub proof fn law_unmapped_press_passes(s: EngineView, key: VirtualKey)
    requires
        0 <= s.active_index < s.schemes.len(),
        remap_target(s.schemes[s.active_index], key) is None,
        !s.schemes[s.active_index].blocked_keys.contains(key),
        key != VirtualKey::F11,
        key != VirtualKey::F12,
    ensures
        engine_step(s, true, press(key)) == (s, HookResult::Pass),
{
}

/// The engine state after `n` presses of F11 in the game.
pub open spec fn after_f11_presses(s: EngineView, n: nat) -> EngineView
    decreases n,
{
    if n == 0 {
        s
    } else {
        engine_step(after_f11_presses(s, (n - 1) as nat), true, press(VirtualKey::F11)).0
    }
}

/// F11 moves to the next scheme cyclically: after `n` presses the active
/// scheme is `n` positions further, modulo the number of schemes.
pub proof fn law_f11_cycles(s: EngineView, n: nat)
    requires
        engine_wf(s),
        s.schemes.len() > 0,
    ensures
        after_f11_presses(s, n).schemes == s.schemes,
        after_f11_presses(s, n).paused == s.paused,
        after_f11_presses(s, n).active_index == (s.active_index + n) % (s.schemes.len() as int),
    decreases n,
{
    let len = s.schemes.len() as int;
    if n == 0 {
        vstd::arithmetic::div_mod::lemma_small_mod(s.active_index as nat, len as nat);
    } else {
        law_f11_cycles(s, (n - 1) as nat);
        let prev = after_f11_presses(s, (n - 1) as nat);
        if len > 1 {
            vstd::arithmetic::div_mod::lemma_add_mod_noop(s.active_index + n - 1, 1, len);
            vstd::arithmetic::div_mod::lemma_small_mod(1, len as nat);
            vstd::arithmetic::div_mod::lemma_mod_twice(s.active_index + n - 1, len);
        } else {
            vstd::arithmetic::div_mod::lemma_mod_pos_bound(s.active_index + n, len);
            vstd::arithmetic::div_mod::lemma_mod_pos_bound(s.active_index + n - 1, len);
        }
    }
}

/// Pressing F11 as many times as there are schemes comes back to the
/// scheme that was active.
pub proof fn law_f11_full_cycle(s: EngineView)
    requires
        engine_wf(s),
        s.schemes.len() > 0,
    ensures
        after_f11_presses(s, s.schemes.len()).active_index == s.active_index,
{
    law_f11_cycles(s, s.schemes.len());
    vstd::arithmetic::div_mod::lemma_add_mod_noop(s.active_index, s.schemes.len() as int, s.schemes.len() as int);
    vstd::arithmetic::div_mod::lemma_mod_self_0(s.schemes.len() as int);
    vstd::arithmetic::div_mod::lemma_small_mod(s.active_index as nat, s.schemes.len());
    vstd::arithmetic::div_mod::lemma_mod_twice(s.active_index, s.schemes.len() as int);
}

} // verus!
