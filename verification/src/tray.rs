use vstd::prelude::*;

verus! {

/// The status shown by the system tray icon.
#[derive(Clone, Copy, PartialEq, Eq, Debug, Structural)]
pub enum TrayStatus {
    Disabled,
    Enabled,
    InGame,
}

/// Why a tray operation failed.
#[derive(Debug)]
pub struct TrayError {
    pub message: String,
}

/// System tray abstraction for status indicator.
pub trait SystemTray {
    fn create(&mut self) -> Result<(), TrayError>;

    fn set_status(&mut self, status: TrayStatus) -> Result<(), TrayError>;

    fn set_tooltip(&mut self, text: &str) -> Result<(), TrayError>;

    fn destroy(&mut self) -> Result<(), TrayError>;
}

/// Stub tray for platforms without native tray support: every operation
/// succeeds and does nothing.
pub struct StubTray;

impl SystemTray for StubTray {
    fn create(&mut self) -> (r: Result<(), TrayError>)
        ensures
            r is Ok,
    {
        Ok(())
    }

    fn set_status(&mut self, _status: TrayStatus) -> (r: Result<(), TrayError>)
        ensures
            r is Ok,
    {
        Ok(())
    }

    fn set_tooltip(&mut self, _text: &str) -> (r: Result<(), TrayError>)
        ensures
            r is Ok,
    {
        Ok(())
    }

    fn destroy(&mut self) -> (r: Result<(), TrayError>)
        ensures
            r is Ok,
    {
        Ok(())
    }
}

/// The tray of this platform. No platform has a native tray yet (macOS
/// would use NSStatusItem), so every platform gets the stub.
pub fn create_tray() -> Box<dyn SystemTray> {
    Box::new(StubTray)
}

} // verus!
