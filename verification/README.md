# sentinel_mini

The decision logic of Sentinel Mini, a battery-powered ESP32-C3 security gadget
(touch to arm, alarm on touch, event log in NVS flash), as a verified Verus library.

- `src/app` — the screen state machine (Boot, Home, Armed, Alarm, History, Battery):
  for each state it returns the actions to perform and takes back touch events.
- `src/drivers` — touch edge tracking and tap / long-press classification, battery
  scaling, buzzer timing and display row layout.
- `src/storage` — the 32-entry event log, its NVS keys, the records it is saved as and
  rebuilt from, and the proof that a saved log is rebuilt unchanged after a restart.
- `src/ui` — the home menu and decimal text.
- `app/` — the firmware around the library: hardware setup, display, buzzer, touch pin,
  NVS reads and writes, deep sleep, and the main loop.
