# SpeicherWald

A disk-usage analyser: it scans directory trees, stores per-directory and
per-file sizes in SQLite, and serves them over an HTTP API (tree, largest
entries, listings, search, export, move/copy) to a web client and a desktop
shell.

## Layout

- `src/` — the verified library (Verus). The rules of the service live
  here with their contracts:
  - `scanner/` — what each directory entry means for a scan, how directory
    and root totals add up (each directory and file counted once in the
    scan's totals), how partial results merge, how the work is sized;
    `scanner/globs.rs` — exclude patterns.
  - `routes/` — the rules of each endpoint: parameter checks and
    normalization, result windows, listing orders, CSV export state, move
    decisions, drive listing, Prometheus text.
  - `middleware/` — authentication, CSRF, client address, sliding-window
    rate limiting, security headers, request validation.
  - `config.rs`, `error/`, `metrics.rs`, `types.rs`, `server.rs` — the
    configuration and its validation, the error type and its responses,
    the counters, the exchanged values, start-up settings.
  - `explorer.rs`, `webui.rs`, `desktop.rs` — what the web client and the
    desktop shell decide: table orders and filters, request URLs, program
    candidates, data-URL encoding.
  - `text.rs`, `sort.rs`, `paths.rs`, `clock.rs` — shared text, ordering,
    path and clock helpers.
- `app/` — the server program: HTTP plumbing (axum), the database (sqlx),
  the file system walk and copy, configuration loading. Its decisions are
  calls into the library; what stays in it is I/O and what depends on it
  (reading directories, the host's Windows checks, formatting sizes with
  floating point).
- `tests/` — tests of the library's public functions.

## Trusted code

The library calls `globset`, `uuid`, `urlencoding`, `num_cpus` and a few
`std` functions through small wrappers marked `#[verifier::external_body]`;
each one's doc comment says what its contract claims.
