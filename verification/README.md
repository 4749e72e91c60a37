# ratterm_core

The core of ratterm, a terminal with an IDE pane, written in Verus: the
state the key handlers work on and the decisions they make, the add-on
system, and the control API's protocol and security guard. Every function
in `src/` carries a contract that Verus proves.

## Layout

- `src/text.rs`: string helpers with exact specifications (trimming,
  prefixes, decimal formatting, title case).
- `src/tty.rs`: whether the standard streams are terminals.
- `src/addons/`: add-on types, the `.ratrc` settings (parsing and
  rewriting the file's text, with save-then-load laws in
  `storage_laws.rs`), installation decisions, GitHub listings and the
  background fetcher's messages.
- `src/api/`: the session token and per-connection authentication, the
  request guard, the loopback-only rule for the TCP endpoint, method
  routing, message framing and the operations the
  API runs on the application state.
- `src/app/`: the application state and its operations: tabs and files,
  layout, the debugger's breakpoints, language-server overlays, key
  filtering and the key maps of every screen, the command palette, the
  Kubernetes screens, the add-on manager, the health dashboard and
  extension approvals.
- `tests/`: tests of the library's behaviour on concrete values.
- `app/`: what the library leaves to its caller: terminal key events,
  the configuration and token files, HTTP requests to GitHub, background
  processes and the control API's socket.

Where an operation needs the outside world (a file, the network, a
process), the library decides what to ask for and takes what came back as
an argument, so each decision is proved for every possible outcome.
