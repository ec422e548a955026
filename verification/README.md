# NOS Autoclicker — verified core

A Windows gaming autoclicker whose decision logic is written in Verus and
proved against its contracts.

- `src/` — the verified library: click profiles and their validation rules,
  the run-session state machine, the click engine's start/stop/panic decisions
  and click-loop steps (the cooldown between runs, waiting for a stationary
  mouse, pausing on focus loss, the stop-after and max-session limits),
  stationary-start detection, safety guardrails, the per-tick click plan,
  interval scheduling with jitter, hotkey grammar, profile-list management and
  release-manifest assembly. Calls to `chrono`, `uuid`, `rand` and parts of
  `std` stand behind small trusted wrappers whose contracts say what is
  assumed of them.
- `tests/` — executable tests of the library.
- `app/` — the program around it: the egui window, the click-loop thread, TOML
  profile files, global hotkey registration, mouse input and logging.
