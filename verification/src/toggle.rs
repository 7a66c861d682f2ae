use vstd::prelude::*;
use crate::event::RawKeyEvent;
use crate::key::VirtualKey;

verus! {

/// The state of a toggle controller.
pub struct ToggleView {
    pub enabled: bool,
    pub toggle_key: VirtualKey,
    pub game_active: bool,
}

/// The controller's state after an event, and whether the event flipped
/// it: a press of the toggle key while the game is active flips `enabled`.
pub open spec fn toggle_step(s: ToggleView, e: RawKeyEvent) -> (ToggleView, bool) {
    if s.game_active && e.key == s.toggle_key && e.pressed {
        (ToggleView { enabled: !s.enabled, ..s }, true)
    } else {
        (s, false)
    }
}

/// Switches remapping on and off with a toggle key while the game is active.
pub struct ToggleController {
    enabled: bool,
    toggle_key: VirtualKey,
    game_active: bool,
}

impl View for ToggleController {
    type V = ToggleView;

    closed spec fn view(&self) -> ToggleView {
        ToggleView { enabled: self.enabled, toggle_key: self.toggle_key, game_active: self.game_active }
    }
}

impl ToggleController {
    pub fn new(toggle_key: VirtualKey) -> (r: ToggleController)
        ensures
            r@ == (ToggleView { enabled: false, toggle_key, game_active: false }),
    {
        ToggleController { enabled: false, toggle_key, game_active: false }
    }

    pub fn is_enabled(&self) -> (r: bool)
        ensures
            r == self@.enabled,
    {
        self.enabled
    }

    pub fn set_game_active(&mut self, active: bool)
        ensures
            final(self)@ == (ToggleView { game_active: active, ..old(self)@ }),
    {
        self.game_active = active;
    }

    pub fn set_toggle_key(&mut self, key: VirtualKey)
        ensures
            final(self)@ == (ToggleView { toggle_key: key, ..old(self)@ }),
    {
        self.toggle_key = key;
    }

    /// Process a key event. Returns true if toggle state changed.
    pub fn process_event(&mut self, event: &RawKeyEvent) -> (r: bool)
        ensures
            final(self)@ == toggle_step(old(self)@, *event).0,
            r == toggle_step(old(self)@, *event).1,
    {
        if !self.game_active {
            return false;
        }

        if event.key == self.toggle_key && event.pressed {
            self.enabled = !self.enabled;
            return true;
        }

        false
    }
}

/// Two presses of the toggle key in the game restore the controller's
/// state, and each reports a change.
pub proof fn law_toggle_twice(s: ToggleView)
    requires
        s.game_active,
    ensures
        toggle_step(s, RawKeyEvent { key: s.toggle_key, pressed: true }).1,
        toggle_step(
            toggle_step(s, RawKeyEvent { key: s.toggle_key, pressed: true }).0,
            RawKeyEvent { key: s.toggle_key, pressed: true },
        ).0 == s,
{
}

/// Outside the game no event changes the controller.
pub proof fn law_toggle_inactive(s: ToggleView, e: RawKeyEvent)
    requires
        !s.game_active,
    ensures
        toggle_step(s, e) == (s, false),
{
}

} // verus!
