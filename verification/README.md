# wealthfolio-cli

`wf`, a command-line client for the REST API of a self-hosted
[Wealthfolio](https://wealthfolio.app) instance: login with a cached session
cookie, account operations, CSV and JSON activity imports, activity search and
net-worth queries.

The decisions and the text the client produces are written in Verus and
verified against their contracts; the network, file and terminal work stays in
ordinary Rust around them.

## Layout

- `src/` — the verified library (crate `wealthfolio_cli`):
  - `text.rs`: character-level string tools with exact specifications;
  - `config.rs`: the configuration, base-URL normalisation, URLs, the cookie
    file path;
  - `auth.rs`: session freshness, `Set-Cookie` parsing, the session a login
    answer establishes, the `cookie` header;
  - `error.rs`: server and login errors and their messages;
  - `models/`: the account and activity records exchanged with the server;
  - `commands/`: for each subcommand, what to ask of the server and the lines
    to print; `csv_map.rs` maps parsed CSV rows to import records.
- `tests/` — tests of the library on concrete values.
- `app/` — the `wf` program: argument parsing, environment, HTTP, the session
  file, JSON (de)serialisation and printing.

## Behaviour worth knowing

- The session is reused while more than 30 minutes of its lifetime remain,
  and a new login is made otherwise.
- CSV headers are matched trimmed, ignoring ASCII case and underscores;
  unknown columns are ignored, empty cells count as absent.
- `doctor` shows only whether a password is set, never the password.
