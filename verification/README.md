# ai_account_tool

The logic of a desktop helper that manages several Codex accounts and launches
isolated Codex CLI instances, each with its own `CODEX_HOME`, written in Verus
with its contracts proved.

## Layout

- `src/` — the verified library.
  - `models.rs`: accounts, tokens, quotas, instances, the store and their views.
  - `storage.rs`: data-directory paths, the default Codex home, normalization
    of user input, SHA-256 prefixes.
  - `codex.rs`: account identifiers, OAuth profiles read from JWTs, `auth.json`
    and `config.toml` contents, slugs, launch scripts and terminal plans, and
    the laws that tie writing an account into a Codex home to importing it back.
  - `commands.rs`: what each command does to the store (accounts, instances,
    launches, quota results).
  - `quota.rs`: the usage request and the quota computed from its answer.
  - `api_channels.rs`: the store of API relay channels.
  - `text.rs`: string helpers (trimming, lines, hex) with their specifications.
- `tests/` — tests of the library on concrete values.
- `app/` — the desktop side: data files, processes, environment, HTTP, and the
  serde forms of the library's types.

Outside crates are reached from `src/` through small trusted wrappers, each
documented with what it assumes of the crate it calls.
