# hamachi_tui

A terminal interface for managing LogMeIn Hamachi VPN networks, with its
logic verified by Verus.

Layout:

- `src/text.rs` — the meaning of the string operations the parsers use
  (lines, trimming, whitespace tokens, substring search, split, join) and
  verified implementations over characters.
- `src/hamachi.rs` — client status, networks and peers; the parsers of the
  `hamachi` and `hamachi list` output; how each command is invoked and how
  a run's output becomes a result.
- `src/app.rs` — the interface state and its steps: each key, tick or
  finished command maps the state to a new state and an effect (refresh the
  data, or run a command in the background).
- `src/view.rs` — what the screen shows for a state: texts, colours,
  selection marks and popup geometry.
- `src/laws.rs` — properties proved of the whole: parser guarantees,
  invariants every step keeps, and how steps combine.
- `app/` — the program: terminal setup, event reading, running the
  `hamachi` process, and drawing with ratatui.
- `tests/` — the behaviour on concrete inputs.
