# Mustel

A PostgreSQL toolkit: run a query on many servers and databases and export the
results to CSV, manage the configured servers, keep their passwords encrypted,
and browse results in a small desktop window.

## Layout

- `src/` is the library, verified with Verus. It holds the decisions of the
  toolkit with their contracts: which query is destructive (`analyzer`), the
  checks on paths and identifiers (`security`), the configuration model and its
  updates (`models`, `user_config`), password encryption and its Base64 framing
  (`credential_store`, `base64`), connection settings and retries
  (`connection`, `executor`), the `query run` pipeline (`query_runner`,
  `exporter`, `prompts`), the command routing (`cli`, `db_servers`) and the
  state of the desktop interface (`gui_app`, `editor`, `sidebar`, `results`,
  `server_manager`).
- Calls into outside crates (sqlparser, aes-gcm, rand, glob) and the few std
  functions that vstd does not describe stand behind small trusted wrappers,
  each documented with what its contract claims.
- `app/` is the program around the library: command-line parsing, files,
  terminal prompts, PostgreSQL connections and the iced window.
- `tests/` exercises the library on concrete values.
