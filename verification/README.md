# insync

Two-way synchronisation of selected iCloud calendars with selected Google
calendars, written in Verus: the planning, hashing, conflict handling, state
machine and text of the program are verified against their contracts.

## Layout

- `src/` — the verified library.
  - `event`, `event_hash`, `policy`: the canonical event, its content hash and
    the conflict policies.
  - `planner`, `planner_laws`: the two-way and initial planners and what every
    plan guarantees.
  - `engine`, `engine_apply`, `engine_plan`, `engine_report`, `daemon`: what a
    sync run does with a plan — the apply steps, link updates, totals, the CSV
    report and the daemon's backoff.
  - `store`, `db_export`: the decisions about stored rows (stale and duplicate
    conflicts, ids) and the JSON export check.
  - `config`, `config_check`, `setup`, `prompts`, `oauth`, `service`: the
    configuration, its check, the setup steps, the OAuth callback and the
    background service definitions.
  - `app`, `app_state`, `app_events`, `dashboard*`, `runtime`, `exports`,
    `tray_status`: the dashboard's model-update-effect state machine and every
    line of text the terminal and tray show.
  - `*_laws`: properties that relate several functions.
- `tests/` — tests of the library on concrete values.
- `app/` — the `insync` command: argument parsing, SQLite, the OS secret
  store, the terminal, the network and the calendar providers' async trait.

The Google Calendar and iCloud CalDAV clients are not part of this build; the
commands that need live calendars say so.
The menu-bar tray shell (its window, icon drawing and the supervisor that
spawns the command) is not built here either: its menu state, its labels and
the terminal launch it decides on are in `tray_status` and `service`.
