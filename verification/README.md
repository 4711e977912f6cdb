# moho_ui

The verified core of the moho game UI, written in Verus.

- `src/prefs`: key bindings, their text form (`Ctrl+W`), key names, and the
  preferences file (read through the `ini` crate, written by the library).
- `src/screens/settings`: the settings menu: staged preferences with
  unsaved-change tracking, the binding registry with conflict detection, and
  the key-capture state machine with its conflict dialog.
- `src/overlays`: the debug console (command parsing, bounded output and
  history) and the heads-up displays' state (visibility, chunk map).
- `src/ui_state.rs`, `src/adapter.rs`, `src/input_handling.rs`: which screen
  is shown, what each game state draws and when a frame is drawn at all,
  menu sounds and music, hover sounds, click choice, and the progress
  overlay's cancel request.
- `app/`: the egui and file-system side: drawing, keyboard conversion, the
  preferences file on disk, and everything that computes with fractions.
