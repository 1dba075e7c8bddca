# i44

A keyboard and mouse remapper for Windows, driven by a QMK keyboard (the
"i44") that reports its active layers over raw HID.

- `src/` is the library, verified with Verus: key codes and modifier sets,
  the inputs that a remap or a typed text sends, the hotkey state machine that
  decides for every keyboard and mouse event whether it passes and what is
  sent in its place, the hotkey configuration, the keyboard's HID messages and
  modes, the clipboard's copy format, tray icon state, wave file headers and
  the HID device report buffers.
- `app/` is the program around it: the low-level hooks and the thread that
  sends inputs, the hidden main window and its tray icons, HID, clipboard,
  shell, audio and timer calls into Windows.
- `tests/` run the library on concrete values.
