# microsandbox-tui

A terminal UI for managing MicroSandbox microVM sandboxes: a list of
sandboxes with their status, a detail panel (logs, filesystem, info and
live metrics), a multi-tab "New Sandbox" dialog, a Volumes view, and
host terminals that exec into a sandbox.

## Layout

- `src/` — the verified library. The whole application state and every
  key, mouse, timer and background-result transition live here, with
  contracts proved by Verus:
  - `app/` — the state (`App`), the key and mouse handling (`keys`),
    actions and confirmation (`actions`), the create dialog and its popups
    (`dialogs`, `popups`), validation of CIDRs, IP addresses and port
    ranges (`validate`), background results (`messages`) and the
    name-keyed caches (`name_map`).
  - `sandbox/` — plain models of sandboxes, metrics, network rules,
    mounts and secrets, with their display summaries.
  - `shell.rs`, `layout.rs`, `text.rs`, `theme.rs`, `config.rs` — shell
    quoting, screen arithmetic, string helpers, palettes, defaults.
- `app/` — the program: terminal setup, the event loop, rendering with
  ratatui, and the calls into the microsandbox SDK and the host. The state
  never performs outside work itself; it appends `Effect`s, which the
  program performs and answers with `AppMessage`s.
- `tests/` — scenario tests of the library.

Key properties are stated and proved in the library, among them: while a
confirmation is pending every key goes to it and the mouse is ignored; no
destructive work is requested without a confirmation; an Esc press and
its release act once; log and metrics histories stay bounded; toggling the
theme twice is the identity; a cache lookup gives back the last write.
