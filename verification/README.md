# csshd

Terminal client for the CSS IT Helpdesk, as a Verus-verified library with a
thin program around it.

- `src/` is the library: rendering stored HTML
  bodies as plain text, relative times and styled labels, the tickets table,
  the helpdesk API's paths, queries, status handling and error texts, ticket
  number normalisation, helpdesk URL resolution, the keychain's answers, the
  subcommands' decisions and output, and the terminal UI as a state machine
  from state and event to next state and action. Its functions are verified
  against their contracts, except the small wrappers marked
  `#[verifier::external_body]` around calls into std and the outside crates
  (chrono, owo-colors, comfy-table, url, serde_json, directories): their
  contracts are trusted, and each says in its doc comment what it claims.
- `app/` is the program: argument parsing, HTTP, the OS keychain, the config
  file, the editor, the terminal, and the event loop that feeds the UI state
  machine and performs its actions. The command-line entry point is still the
  v0.1 scaffold, which answers every command with "not yet implemented".
- `tests/` runs the library with the outside crates linked.
