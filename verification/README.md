# claw_core

Verified core of ClawAgentMonitor, a desktop monitor for OpenClaw agents and
their gateway.

- `src/` — the library, verified with Verus:
  - `models` — data model of the `openclaw … --json` outputs; agent id of a
    task's session key;
  - `agent_state` — colour heuristic of an agent and the status snapshot;
  - `cli` — command lines and deadlines of every CLI call;
  - `gateway` — the non-destructive restart escalation as a state machine;
  - `watchdog` — the watchdog loop's decisions, with crash-loop detection;
  - `display`, `tray`, `notify` — what the window, the tray icon and the
    notifications show;
  - `autostart` — which login item is read or changed, and how its outcome
    is reported;
  - `config`, `text` — preferences and text helpers.
- `app/` — the program around it: runs the CLI with tokio, decodes JSON with
  serde, keeps the configuration file, drives the watchdog and the escalation,
  shows the tray icon (ksni) and notifications (notify-rust), and reads or
  changes the login item (auto-launch).
- `tests/` — tests of the library.
