# simpomo

The core of a landscape pomodoro timer, verified with Verus.

- `src/timer.rs` — the state machine (work/break phases, sets, cycle setting), specified
  over the model `(Config, TimerState)` by spec functions such as `tick_run`,
  `complete_step`, `restored_state` and `launch_state`; `Timer`'s methods are proved to
  compute them.
- `src/timer_laws.rs` — properties spanning calls: ticking in parts equals ticking at
  once, a finite cycle setting runs exactly its sets, an unlimited one never stops,
  skipping is ticking the rest of the phase, restoring a persisted session and catching
  up the wall-clock gap is ticking that gap, and others.
- `src/settings.rs` — the settings and their validation (`AppSettings::sanitized`).
- `src/stats.rs` — completion counts fed by the timer's boundary events.
- `src/session.rs` — the persisted running session and the wall clock.
- `src/lib.rs` — the decisions of the driver: one wall-clock tick, the launch, applying
  saved settings.
- `app/` — the Tauri application around the library (commands, tick thread, JSON files,
  events), not verified.
