# vault

Automatic document version history: `vault init` once in a directory, and a background daemon
records every change so that any earlier version can be shown, compared or restored later.

This crate holds the decisions, records and reports of that design. It has no storage backend
(the git object store, the SQLite metadata index, the file walker and watcher): `vault init`
and the history commands (`show`, `restore`, `log`, `diff`, `list`, `reindex`) stop with an
error after resolving their paths, and the daemon's tasks report that they cannot run.
`status`, `prune`, `ignore` and the daemon's lock, heartbeat and queue work.

This crate is written in Verus. `src/` is the verified library: every function there carries a
`requires`/`ensures` contract that Verus proves, and the laws the library keeps stand there as
proof functions. `app/` is the `vault` program around it: command-line parsing, files, locks,
the clock and the async daemon loop.

## Layout

- `src/domain/`: change kinds, relative paths, snapshot messages (and their parsing back),
  queue task kinds, vault layouts and initialization states.
- `src/queue/`: the in-memory work queue (per-lane FIFO, bounded retries) and the task
  handlers' decisions and log lines.
- `src/registry.rs`, `src/config.rs`, `src/ignore.rs`, `src/snapshot.rs`: the vault registry,
  configuration, ignore-glob matching (through `globset`) and the classification of notified
  paths into snapshot changes.
- `src/paths.rs`, `src/init.rs`, `src/daemon.rs`, `src/service.rs`, `src/status.rs`: path
  resolution, `vault init`'s decisions, daemon records and `vault status`'s rendering.
- `src/cli/`: every report the commands print, including unified diffs and diffstats (through
  `similar`).
- `src/text.rs`: string building with proved contents.
- `tests/`: the test suite, run against the compiled library.
