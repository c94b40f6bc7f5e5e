# wayland-spectre

Wayland screen-sharing diagnostics for KDE Plasma / Bazzite, with the
diagnostic logic verified by Verus.

The tool probes eight layers (L0 NVIDIA driver, L1 D-Bus portal, L2/L3
Wayland compositor and protocols, L4 PipeWire and the live portal
`CreateSession` probe, L5 Flatpak permissions, L6 environment, L7 KWin
plugins) and reports one PASS / WARN / FAIL / SKIP result per check, with a
pasteable fix command for every failure.

## Layout

- `src/` — the verified library. Each layer module takes what was read from
  the machine (file contents, environment values, the Wayland registry
  listing, D-Bus replies, subprocess output) as plain values and returns the
  results; every public function's `ensures` states its results exactly over
  spec functions. `laws.rs` holds the properties of the diagnostic as a whole
  (X11 sessions skip the Wayland layers, failures always carry a fix, the
  exit code counts failures only, the layer filter keeps exactly one layer,
  unsafe fix commands are refused, …); `redact.rs` proves that a redacted
  bug report holds no host name, user name or home path, provided each is
  non-empty, holds neither `<` nor `>`, and is not part of a placeholder
  (`<home>`, `<user>`, `<hostname>`) that replaces it or comes after it; a
  user named `user`, for instance, stays visible inside `<user>`.
- `app/` — the command line: argument parsing, the concurrent probes (files,
  subprocesses, zbus, wayland-client), JSON output and the bug-report bundle.
- `tests/` — tests of the library on concrete inputs.
