//! Keyman: hotkey remapping for Warcraft III, the logic of the remapping
//! engine, its schemes and configuration, and the code tables of the
//! platform keyboard hooks.

pub mod key;
pub mod event;
pub mod hook;
pub mod keymap;
pub mod text;
pub mod i18n;
pub mod scheme;
pub mod detector;
pub mod monitor;
pub mod engine;
pub mod toggle;
pub mod config;
pub mod keycodes;
pub mod tray;
pub mod labels;
pub mod sorting;
pub mod editor;
pub mod scheme_file;
pub mod windows_hook;
pub mod status;
pub mod process;

pub use windows_hook::WindowsKeyboardHook;
