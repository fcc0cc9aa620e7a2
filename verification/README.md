# app_runtime

The verified core of a small desktop application runtime: applications
describe themselves in an `app.toml` manifest, declare the native features
they use, and talk to their web front end over an IPC bridge.

## Layout

- `src/` — the library, verified with Verus.
  - `manifest`, `toml_doc` — the `app.toml` schema and its decoding
    (the TOML text itself is parsed by the `toml` crate).
  - `permissions`, `context`, `scope`, `fs`, `path`, `network` — deny-by-default
    permissions, the app-private directories, file access confined to a root,
    and the HTTPS-only rule.
  - `ipc`, `lifecycle`, `builder`, `keyboard` — the command registry, the
    request/response bridge and its script escaping, the event-loop
    decisions, the application builder and keyboard-event translation.
  - `audit`, `bindgen`, `project` — the command-line tool's permission audit,
    TypeScript bindings generator, project scaffolding and AppImage layout.
  - `text`, `strset` — string and sorted-set helpers with their proofs.
- `tests/` — tests of the library.
- `app/` — the `runtime-cli` and `runtime-bindgen` programs and the platform
  glue (files, processes, clipboard, dialogs, window, web engine).
