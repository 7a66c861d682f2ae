use vstd::prelude::*;
use crate::key::VirtualKey;

verus! {

/// What a keyboard hook does with an intercepted key event.
#[derive(Debug, Clone, Copy, PartialEq, Eq, Structural)]
pub enum HookResult {
    /// Let the event through unchanged.
    Pass,
    /// Swallow the event.
    Suppress,
    /// Swallow the event and emit the given key instead.
    Replace(VirtualKey),
}

} // verus!
