# pigeons

Carrier pigeons for SSH connections: a roost accepts pigeons over iroh and
delivers them to the local SSH server; `pigeons fly` sends one.

- `src/` is the library. It holds what the command decides and computes, with
  contracts that Verus proves: the config and its layers, the telemetry secret,
  the update receiver and its allowlist, host names of routes, the steps of each
  command, the steps of building a tunnel, and the copy loops of a bridge.
- `tests/` runs the library.
- `app/` is the command itself: arguments, files, sockets, and the calls into
  iroh. It takes each step that the library asks for and hands the outcome back.

The contracts of the wrappers around `toml`, `iroh-base`, `dirs` and `homedir`
are trusted; each says above it what it claims. All else is proved.
