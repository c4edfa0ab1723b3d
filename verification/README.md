# sweech

Sweech organises a backend as *applets*: folders ending in `.applet`, each
holding `route.rs` handlers, described by a `sweech.manifest.toml`. This
crate holds the framework's logic as a verified library.

Layout:

- `src/` — the library, verified with Verus:
  - `auth`, `context`, `error`, `response`, `handler`, `applet`: the types
    handlers see (identity, request facts, errors, responses, methods).
  - `pipeline`: the route pipeline every request goes through (auth
    requirement, body, decoding, guards, handler), as a state machine with
    its laws; `query`: query-string parsing.
  - `manifest`, `validator`: the manifest schema and the pre-flight rules.
  - `scanner`, `order`: what a project scan yields and how it is sorted.
  - `config`, `commands`: the global configuration and the decisions behind
    the command-line commands.
  - `text`: string helpers shared by the above.
- `app/` — the `sweech` command-line tool and the Axum integration: file and
  network I/O, TOML parsing, printing, and the async request loop that
  drives the library's pipeline.
- `tests/` — tests of the library.
