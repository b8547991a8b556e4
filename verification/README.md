# wingetui

A terminal interface for winget (the Windows package manager): search
packages, list and run upgrades, install and uninstall.

The logic is a Verus-verified library under `src/`:

- `winget/` — the command layer: argument lists (`commands`), input
  validation (`validate`), errors and their texts (`error`), the package
  model (`models`), reading winget's text table (`table`) and its JSON
  listing (`json`, `parser`), and the decisions around a run: what to start
  and how to read its end, stdout decoded as UTF-8 or else GBK (`outcome`).
- `state/` — the screens and the events background work sends back.
- `event.rs` — keys, resizes and background events.
- `app.rs` — the state machine: from screen and event to the next screen
  and the outside work to start, with the laws it keeps.
- `display.rs` — the texts each screen shows.
- `text.rs` — Unicode whitespace and control classes, trimming, decimal
  text.

`app/` is the program around it: the tokio runtime that spawns winget and
carries out the state machine's effects, the crossterm event loop, and the
ratatui drawing.
