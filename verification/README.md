# metachat

The verified core of MetaChat, a desktop client that runs one hardened
browser per chat account (WhatsApp, Telegram, …) and switches between them.

- `src/` — the library, verified with Verus:
  - `cloak/pool.rs`, `cloak/pool_laws.rs`: the instance pool (states,
    least-recently-used lists, promotion, freezing, adaptive demotion under
    memory pressure) and the laws it obeys.
  - `cloak/fingerprint.rs`, `scripts/fingerprint.rs`: per-account browser
    fingerprints derived from the SHA-256 of a seed, and the page scripts
    that apply them.
  - `cloak/config.rs`, `cloak/instance.rs`: pool configuration and the
    exact integer priority score of an instance.
  - `cloak/process.rs`, `commands/browser.rs`, `cloak/cdp.rs`,
    `cloak/injector.rs`, `cloak/position.rs`, `cloak/window_embed.rs`:
    browser command lines, debugging addresses, message routing, window
    styles and switching plans.
  - `storage/`: the data model, the SQL schema and query helpers.
  - `scripts/`: download checks and installer decisions.
- `tests/` — tests on concrete values.
- `app/` — the application around the library: SQLite, processes, the
  DevTools WebSocket, Windows calls and the commands of the user interface.
