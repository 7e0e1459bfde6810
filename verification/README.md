# orzma input logic

The input decisions of the orzma terminal host, verified with Verus: IME
composition and commits, copy-mode keys, keyboard shortcut routing, the
mouse-button dispatcher and drag selection, the tmux pane gesture, divider
grabs, inline-webview routing and mounting, hyperlink hover, wheel routing,
the workspace grid size and the terminal font configuration.

- `src/` — the verified library. Each module states its contracts over
  spec functions; laws that span calls are public proof functions.
- `tests/` — tests of the library on concrete values.
- `app/` — the host side: pixel geometry and wheel accumulation (floating
  point), the mouse policy as configured, the tmux pane lookups, and
  per-frame drivers (button dispatch, local selection, webview routing, the
  tmux gesture, IME, keyboard, wheel) that feed the library's deciders.

Outside crates: `serde_json` renders the capability grant of a webview
preload; `fontique` looks configured font families up.
