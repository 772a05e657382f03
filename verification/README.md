# simnation

The decision logic of the SimNation companion applications (the desktop
shell, the radio with its in-game overlay, and the telemetry hub), verified
with Verus.

- `src/` is the verified library: window plans for the overlay and the game
  detector, hotkey plans, tray and close handling, the hub's shared-memory
  listener as a state machine, decoding of the game's telemetry block, and
  the text of the debug log.
- `app/` holds the three Tauri applications, which carry out the library's
  decisions against the windowing system, the process list and the shared
  memory of the game. Floating-point unit conversion of telemetry readings
  stays there.
- `tests/` exercises the library on concrete values.
