# Orchestrator

Global-hotkey input automation for KDE Plasma on Wayland: profiles bind a
hotkey to a repeated key/scroll input or a multi-step macro, scoped to the
whole desktop or to one window.

## Layout

- `src/` — the verified library (Verus). The profile/action/config model
  and its validation, the profile commands and their step notation, the
  runner's toggle/debounce/window-targeting decisions, and the computing
  halves of the backends: `ydotool` argument lists, the KDE shortcuts
  portal's trigger parsing and id bookkeeping, KWin script construction and
  payload reading. Every public function carries a contract; the `law_*`
  proof functions state properties that span several functions.
- `app/` — the `orchestrator` program around the library: command-line
  parsing, reading and writing the config file, D-Bus, spawning `ydotool`,
  and the async event loop that drives the runner's decisions.
- `tests/` — tests of the library on concrete values.

Check the library with `verus` on `src/lib.rs`.
