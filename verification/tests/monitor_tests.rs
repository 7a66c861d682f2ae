//! Game detection, process matching, the toggle controller and the tray.

use std::sync::{Arc, Mutex};
use keyman::detector::{DetectError, ProcessDetector};
use keyman::event::RawKeyEvent;
use keyman::key::VirtualKey;
use keyman::monitor::{
    first_found, game_process_name, record_focus_query, record_process_lookup, GameDetectionService, GameMonitor,
    GameState,
};
use keyman::process::{contains_str, find_process_pid, has_pid, is_process_running, linux_window_focused, ProcessEntry};
use keyman::toggle::ToggleController;
use keyman::tray::{create_tray, StubTray, SystemTray, TrayStatus};

struct FakeDetector {
    pid: Option<u32>,
    focused: Result<bool, ()>,
}

impl ProcessDetector for FakeDetector {
    fn is_process_running(&self, _name: &str) -> Result<bool, DetectError> {
        Ok(self.pid.is_some())
    }

    fn is_window_focused(&self, pid: u32) -> Result<bool, DetectError> {
        match self.focused {
            Ok(f) => Ok(f && Some(pid) == self.pid),
            Err(()) => Err(DetectError { message: "no display".to_string() }),
        }
    }

    fn find_process_pid(&self, name: &str) -> Result<Option<u32>, DetectError> {
        if name == "Warcraft III" { Ok(self.pid) } else { Ok(None) }
    }
}

#[test]
fn monitor_detects_running_and_focused_game() {
    let mut monitor = GameMonitor::new(Box::new(FakeDetector { pid: Some(42), focused: Ok(true) }));
    assert!(!monitor.is_game_active());
    assert_eq!(monitor.check(), (true, true));
    assert!(monitor.is_game_running());
    assert!(monitor.is_game_focused());
    assert!(monitor.is_game_active());
    let handle = monitor.state_handle();
    assert_eq!(handle.lock().unwrap().pid, Some(42));
}

#[test]
fn monitor_without_game() {
    let mut monitor = GameMonitor::new(Box::new(FakeDetector { pid: None, focused: Ok(true) }));
    assert_eq!(monitor.check(), (false, false));
    assert!(!monitor.is_game_running());
    assert!(!monitor.check_focus());
}

#[test]
fn monitor_focus_query_failure_counts_as_unfocused() {
    let mut monitor = GameMonitor::new(Box::new(FakeDetector { pid: Some(3), focused: Err(()) }));
    assert_eq!(monitor.check(), (true, false));
}

#[test]
fn service_shares_the_monitor_state() {
    let mut monitor = GameMonitor::new(Box::new(FakeDetector { pid: Some(5), focused: Ok(false) }));
    let shared: Arc<Mutex<GameState>> = Arc::new(Mutex::new(GameState::default()));
    monitor.share_state(shared.clone());
    let service = GameDetectionService::new(shared);
    monitor.check();
    assert!(service.get_state().running);
    assert!(!service.get_state().focused);
    assert_eq!(service.state_handle().lock().unwrap().pid, Some(5));
}

#[test]
fn state_records() {
    let s = GameState { running: false, focused: true, pid: None };
    let a = record_process_lookup(s, Some(9));
    assert!(a.running && a.focused && a.pid == Some(9));
    let b = record_focus_query(a, Some(false));
    assert!(!b.focused);
    let c = record_focus_query(GameState::default(), Some(true));
    assert!(!c.focused);
    assert!(!GameState::default().is_active());
    assert_eq!(game_process_name(2), "Warcraft III.exe");
}

#[test]
fn process_matching() {
    assert!(contains_str("warcraft iii.exe", "iii"));
    assert!(contains_str("abc", ""));
    assert!(!contains_str("ab", "abc"));
    assert!(!contains_str("war3", "war4"));
    let table = vec![
        ProcessEntry { name: "bash".to_string(), pid: 1 },
        ProcessEntry { name: "WAR3.exe".to_string(), pid: 20 },
        ProcessEntry { name: "war3helper".to_string(), pid: 30 },
    ];
    assert_eq!(find_process_pid(&table, "war3"), Some(20));
    assert!(is_process_running(&table, "Bash"));
    assert!(!is_process_running(&table, "Warcraft III"));
    assert_eq!(find_process_pid(&table, "zsh"), None);
    assert!(has_pid(&table, 30));
    assert!(!has_pid(&table, 31));
    assert!(linux_window_focused(Some(20), &table, 20));
    assert!(!linux_window_focused(Some(1), &table, 20));
    assert!(linux_window_focused(None, &table, 30));
    assert!(!linux_window_focused(None, &table, 31));
}

#[test]
fn toggle_controller() {
    let mut t = ToggleController::new(VirtualKey::F12);
    let press = RawKeyEvent { key: VirtualKey::F12, pressed: true };
    assert!(!t.process_event(&press));
    assert!(!t.is_enabled());
    t.set_game_active(true);
    assert!(t.process_event(&press));
    assert!(t.is_enabled());
    assert!(!t.process_event(&RawKeyEvent { key: VirtualKey::F12, pressed: false }));
    assert!(t.process_event(&press));
    assert!(!t.is_enabled());
    t.set_toggle_key(VirtualKey::F10);
    assert!(!t.process_event(&press));
    assert!(t.process_event(&RawKeyEvent { key: VirtualKey::F10, pressed: true }));
}

#[test]
fn stub_tray() {
    let mut tray = create_tray();
    assert!(tray.create().is_ok());
    assert!(tray.set_status(TrayStatus::InGame).is_ok());
    assert!(tray.set_tooltip("Keyman").is_ok());
    assert!(tray.destroy().is_ok());
    let mut stub = StubTray;
    assert!(stub.set_status(TrayStatus::Disabled).is_ok());
}

/// Answers in a fixed way and remembers which names it was asked for.
struct RecordingDetector {
    asked: Mutex<Vec<String>>,
}

impl ProcessDetector for RecordingDetector {
    fn is_process_running(&self, _name: &str) -> Result<bool, DetectError> {
        Ok(false)
    }

    fn is_window_focused(&self, _pid: u32) -> Result<bool, DetectError> {
        Ok(true)
    }

    fn find_process_pid(&self, name: &str) -> Result<Option<u32>, DetectError> {
        self.asked.lock().unwrap().push(name.to_string());
        match name {
            "war3" => Err(DetectError { message: "no access".to_string() }),
            "Warcraft III.exe" => Ok(Some(11)),
            "warcraft_iii" => Ok(Some(12)),
            _ => Ok(None),
        }
    }
}

/// A recording detector shared with the test.
struct Shared(Arc<RecordingDetector>);

impl ProcessDetector for Shared {
    fn is_process_running(&self, name: &str) -> Result<bool, DetectError> {
        self.0.is_process_running(name)
    }

    fn is_window_focused(&self, pid: u32) -> Result<bool, DetectError> {
        self.0.is_window_focused(pid)
    }

    fn find_process_pid(&self, name: &str) -> Result<Option<u32>, DetectError> {
        self.0.find_process_pid(name)
    }
}

#[test]
fn first_found_takes_the_first_pid() {
    let answers = vec![
        Err(DetectError { message: "x".to_string() }),
        Ok(None),
        Ok(Some(7)),
        Ok(Some(9)),
    ];
    assert_eq!(first_found(&answers), Some(7));
    assert_eq!(first_found(&vec![Ok(None), Err(DetectError { message: "y".to_string() })]), None);
    assert_eq!(first_found(&Vec::new()), None);
}

#[test]
fn process_names_are_asked_in_order_until_found() {
    let detector = Arc::new(RecordingDetector { asked: Mutex::new(Vec::new()) });
    let mut monitor = GameMonitor::new(Box::new(Shared(detector.clone())));
    assert!(monitor.check_process());
    assert_eq!(*detector.asked.lock().unwrap(), vec!["war3", "Warcraft III", "Warcraft III.exe"]);
    let state = *monitor.state_handle().lock().unwrap();
    assert_eq!(state.pid, Some(11));
    assert!(state.running);
    assert!(!state.focused);
}
