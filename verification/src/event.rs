use vstd::prelude::*;
use crate::key::VirtualKey;

verus! {

/// A key press or release reported by a keyboard hook.
#[derive(Debug, Clone, Copy)]
pub struct RawKeyEvent {
    pub key: VirtualKey,
    pub pressed: bool,
}

} // verus!
