use vstd::prelude::*;

verus! {

/// The low-level keyboard hook of Windows. It records the handle of the
/// installed hook procedure (an `HHOOK`, kept as its address); installing
/// and removing the hook are calls into the Windows API that the
/// application makes.
pub struct WindowsKeyboardHook {
    hook_handle: Option<usize>,
}

impl WindowsKeyboardHook {
    /// The handle of the installed hook, if any.
    pub closed spec fn handle(&self) -> Option<usize> {
        self.hook_handle
    }

    /// A hook that is not installed.
    pub fn new() -> (r: WindowsKeyboardHook)
        ensures
            r.handle() is None,
    {
        WindowsKeyboardHook { hook_handle: None }
    }

    /// Records the handle of the hook that was just installed.
    pub fn set_installed(&mut self, handle: usize)
        ensures
            final(self).handle() == Some(handle),
    {
        self.hook_handle = Some(handle);
    }

    /// Forgets the installed hook, returning its handle so that it can be
    /// removed.
    pub fn take_installed(&mut self) -> (r: Option<usize>)
        ensures
            r == old(self).handle(),
            final(self).handle() is None,
    {
        self.hook_handle.take()
    }
}

} // verus!
