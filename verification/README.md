# rust_rpc

A Discord rich-presence animator that lives in the Windows system tray.

- `src/` is the verified library (Verus): the animations and their frames,
  the step-by-step decisions of an animation's loop, the client's
  bookkeeping of the animation that plays, the autorun and autostart
  settings, the tray menu's commands, and reading and writing the decimal
  and boolean texts of the settings.
- `app/` is the program around it: the Discord connection, the tokio tasks
  that play animations, the custom animation file, the registry, the
  auto-launch entry and the tray icon. It runs on Windows only.
- `tests/` runs the library on concrete values.
