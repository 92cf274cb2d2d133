# gitchange_tui

The state machine behind gitchange's terminal UI, verified with Verus:
panel focus and the drill-down from changelists to files to hunks, the
selections and how they survive a fresh snapshot, the binding core that
resolves keys and decides which bindings are live, the keybar that
advertises exactly those, the assign popup and the commit dialog's whole
lifecycle, and the Log panel's capped stream with its condition pins.

Every public function states what it returns and how it changes the App,
over spec functions in the same module; `src/laws.rs` proves what holds
across calls and across every state.

## Layout

- `src/` — the verified library.
  - `model.rs`: the snapshot the engine reports (files, hunks, changelists,
    commits, the git operation in progress, advisories) and its wording in
    the Log.
  - `app.rs`: the App, the actions a key press asks for, page sizes.
  - `keymap.rs`: keys, the binding table, resolution and spellings.
  - `dispatch.rs`: capabilities and their disabled reasons, focus moves,
    `space`'s toggle, the keybar.
  - `input.rs`: key routing through the error modal, help, overlays and the
    binding core.
  - `selection.rs`: movement by row, page and jump; snapshot application.
  - `assign.rs`, `commit_flow.rs`, `overlay.rs`: the assign popup and the
    commit flow.
  - `view.rs`, `view_model.rs`: the rows and diff lines the renderer draws.
  - `status.rs`: the Log, the error modal, pins and the refresh indicator.
  - `steps.rs`: the main loop's exchanges with the engine — which call an
    op or a commit step makes next, what lands in the Log, which modal a
    failure raises — decided one answer at a time.
  - `panel.rs`, `display.rs`, `text.rs`: panels and their heights, small
    renderer helpers, and the string building blocks.
  - `laws.rs`: the laws.
- `tests/` — the behaviour suite and tests of the laws on concrete values.
- `app/` — the ratatui frontend: the main loop, the engine bridge, the
  renderer and the theme.

## What restates the engine

The engine (`gitchange_core`) is not part of this crate, so the library
models its values as types of its own. A few pieces of text and counting
restate the engine's own rules rather than compute them, and nothing
here can hold them to the engine: the wording of each advisory
(`Advisory::message`), the ` · ` separator between a row's parts, and
how a `ChangedFile` derives its stage, its marker and its hunk counts.
The engine's answers themselves (an empty payload, a refused delete, a
hook rejection) come back through `steps.rs` as the engine reported
them.
