# ARCTracker Sync

The sync client of ARCTracker: it watches the game's own traffic for the session
token, submits it to ARCTracker, and keeps doing so while the game runs.

- `src/` is the client's logic, verified with Verus: a state machine over plain
  values, with an exact contract for every operation.
  - `app/` holds the state machine. A state is an `ArcTrackerSyncApp`; its view is
    an `AppModel`, and each operation is a step from one model to the next. What
    holds of every state is `app::valid`; what holds over several steps stands in
    `app/laws.rs` and beside the operations, as proof functions named `law_..`.
    Requests to the surroundings are collected as `Effect`s.
  - `launch/` finds the launchers, tells whether they hand the sync key over, and
    plans how to get them to.
  - `process_env/` finds processes and reads their environments, from what Linux
    and Windows say of them.
  - `elevation.rs`, `i18n.rs`, `theme.rs` and `widgets.rs` hold the rights to
    capture, the choice of the language, the palette and the states of widgets.
  - `text.rs`, `numerals.rs` and `utf16.rs` are the text functions that the rest
    is stated over.
- `tests/` runs the library.
- `app/` is the window and everything that touches the system. It gathers the
  facts that the library asks for, carries out its requests and draws what it
  describes. Settings, credentials, the network and the tray come in through the
  traits in `app/services.rs`.

Times are nanoseconds of a monotonic clock, paths are text, and what the system
or the service answers comes in as an argument, so every answer is covered by
the proofs. What is believed without proof is marked in the source, each with
the outside function that it speaks of: `serde_json` for the Epic manifests,
`chrono` for times in words, `rust_i18n` for the active locale, and three
functions of the standard library.
