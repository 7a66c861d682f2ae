use vstd::prelude::*;

verus! {

/// Why a process or window query failed.
#[derive(Debug)]
pub struct DetectError {
    pub message: String,
}

/// Queries about running processes and the focused window, implemented
/// for each platform.
pub trait ProcessDetector {
    fn is_process_running(&self, name: &str) -> Result<bool, DetectError>;

    fn is_window_focused(&self, pid: u32) -> Result<bool, DetectError>;

    fn find_process_pid(&self, name: &str) -> Result<Option<u32>, DetectError>;
}

} // verus!
