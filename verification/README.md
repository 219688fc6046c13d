# winpc

A parental-control service and its desktop agent. The service keeps a
time-limited unlock of the protected user's session, checks the parent PIN,
hands out short-lived control sessions for its HTTP API, and supervises the
agent, which shows a lock screen or a countdown widget.

## Layout

- `src/` — the library, verified with Verus:
  - `time.rs`: instants on the UTC time line and minute arithmetic.
  - `config.rs`: the persisted configuration and its transitions (unlock,
    extend, lock, heartbeat, follow-up on expiry), the PIN check and the
    reported status.
  - `sessions.rs`, `state.rs`: control sessions and the service state.
  - `control.rs`: reading unlock/extend bodies, bearer tokens, HTTP statuses.
  - `agent.rs`: the agent's state machine, texts and control layout.
  - `secret.rs`, `security.rs`, `snapshot.rs`, `text.rs`, `cli.rs`,
    `platform.rs`, `model.rs`, `error.rs`: PIN hashing and encodings, the
    stored form of secrets, screen snapshots, text handling, the
    `--init-config` and `--reset-pin` command lines, supervisor decisions,
    message types and errors.
- `app/` — the programs around the library: the HTTP server, the named-pipe
  IPC, the Windows service and the agent's Win32 window, file I/O (on
  Windows the PIN hash is sealed with DPAPI in the configuration file; the
  library holds it unsealed in memory), and the serde copies of the message
  types.
- `tests/` — tests of the library.

Run as `winpc --console` for the service in a console, `winpc --agent` for the
agent, `winpc --init-config [--config PATH] [--protected-user-sid SID |
--all-users] [--pin PIN] [--warn-only | --enforce-lock]` to write a
configuration, or `winpc --reset-pin --pin PIN` to set a new parent PIN.
A new configuration (no file yet, or the file deleted) has the PIN `0000`;
the PIN can be changed from the web page (`POST /api/auth/change-pin`).
