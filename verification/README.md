# keyman

A key remapping tool for Warcraft III: skill and inventory hotkeys are
remapped while the game is running and focused. F11 switches between
schemes in game and F12 pauses or resumes the remapping.

The library under `src/` is written in Verus and verified. Public
functions state what they return or change, except where the answer lies
with another thread or an outside service: the reads of the shared game
state, and the tray of the platform. The properties that span several
calls stand as proof functions beside the code they speak of.

- `key`, `event`, `hook`: virtual keys, raw key events, what a hook does.
- `keymap`: a map from key to key without duplicate sources.
- `scheme`, `config`: key binding schemes and the set of schemes with the
  active one.
- `engine`: the remapping engine that decides for each key event whether
  it passes, is suppressed or is replaced.
- `toggle`: a toggle controller for a single key.
- `editor`: the editing steps of the configuration window (capturing keys,
  clashes between keys, adding, renaming and deleting schemes).
- `labels`, `sorting`, `text`: key names and labels, ordering of rows.
- `keycodes`: platform key codes (Windows virtual keys, evdev codes, macOS
  key codes) and their translation to virtual keys.
- `monitor`, `process`, `detector`: game detection from process lists and
  the focused window.
- `i18n`, `status`: interface texts in Chinese and English.
- `scheme_file`: the version check of exported scheme files.
- `tray`, `windows_hook`: the tray abstraction and the record of an
  installed Windows hook.

`app/` holds what stays outside the verified library: the window, file
I/O of the configuration, the platform keyboard hooks and detectors, and
the detection thread.
