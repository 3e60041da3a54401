# fizzy

A command-line client for the [Fizzy](https://fizzy.do) kanban service (`fz`), whose
logic is a library verified with Verus.

- `src/` — the verified library: the data model, the configuration and its precedence
  rules, the agent workflow (`#after-N` dependencies, readiness, plans), the requests the
  commands send, the text and tables they print, the project setup that `init` performs,
  and the state machine and screen layout of the interactive board browser. Each public
  function states its result in its `ensures`; the `law_*` proof functions state what
  holds across functions (for example, that a card with an open dependency is never
  ready, or that merging the session hook twice changes nothing).
- `app/` — the program around it: argument parsing (`clap`), HTTP (`reqwest`), files,
  the terminal (`ratatui`, `crossterm`) and printing.
- `tests/` — tests of the library on concrete values.

Calls into outside crates that the library makes (`chrono`'s clock and date text,
`reqwest`'s header check and status text, `ratatui`'s layout, case mapping) go through
small trusted wrappers whose contracts are documented where they stand.
