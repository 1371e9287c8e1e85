# cursor_routing

Which model serves a Cursor run, and where. A policy file chooses the models of subagents; the
registry keeps the choice for as long as a run lasts, and routes the run to a local transport or
to the official service. Account and startup metadata are served from caches.

- `src/` is the verified library.
  - `policy`, `policy_file`, `policy_context`, `policy_reading`, `subagent`: the rules, the checks of
    their file, the text that describes them and what can be read back from it, and when a changed
    file comes into force.
  - `wire`, `model`, `rewrite`: what a request asks for, and how it is made to ask for another model.
  - `registry`, `lifecycle`: transports, admissions, and what holds of them over time.
  - `selection`, `append`, `routes`: what becomes of a message, and which endpoint serves a path.
  - `http`, `token`, `get_me_cache`, `plugin_catalog`, `startup_timing`: headers, replies and caches.
  - `text`, `text_map`, `bytes`, `error`, `plugin`: what the others stand on.
- `app/` is the server around it: sockets, files, clocks, and the services that it talks to.
- `tests/` run the library.

Functions of `axum::http`, `serde_yaml` and `sha2`, and the `Debug` form of strings, are called through wrappers whose contracts are
taken on trust; each of them says in its doc comment what it claims.
