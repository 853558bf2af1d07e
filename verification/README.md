# ion-channel

A remote desktop portal core for Wayland compositors, with its contracts
proved by Verus.

## Layout

- `src/types` — devices, input events, session modes and states, errors,
  session handles with consent and device authorisation.
- `src/portal` — the session manager, the RemoteDesktop portal logic,
  consent handling and portal responses.
- `src/compositor` — per-session rate limiting, virtual input dispatch,
  the compositor-side session service, EIS socket discovery, capability
  detection and the screen capture tiers, frames and test patterns.
- `src/backend` — compositor backends (mock, generic Wayland, COSMIC),
  their registry and selection.
- `src/deploy` — VM discovery (SSH configuration parsing, deduplication),
  cloud-init configuration, SSH key and command construction, deployment
  planning and the unattended provisioning run as a state machine.
- `src/text.rs`, `src/time.rs` — text helpers and time spans.
- `app/` — the `ion-deploy` command-line tool: argument parsing, settings
  files, SSH and process I/O around the library.
- `tests/` — tests of the library.

The library is verified with `verus`; the command-line tool is ordinary
Rust on top of it.
