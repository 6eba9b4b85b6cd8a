# myusage

A small Windows widget that docks on the taskbar and shows how much of an
AI subscription quota is left, with a live countdown to the next reset.

- `src/` is the verified library (Verus): command-line modes, the
  `--status` report, the countdown and date texts, the chip hover text,
  the tray/window reactions, the colour palette, the taskbar rectangle,
  the theme decision, the quota-window rollover, the startup command and
  the crash-log line. `chrono` is called behind one trusted wrapper (the clock) in
  `src/clock.rs`.
- `app/` is the program around it: the egui window, the tray icon, the
  registry, files, Win32 calls, and the floating-point parts (icon
  shading, dock layout, simulated usage drift).
- `tests/` exercises the library on concrete values.
