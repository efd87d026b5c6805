# zz_metasvr

The account, session and event logic of a small metadata server, verified with Verus.

- `src/` is the verified library: registration checks (field rules, mail and phone
  patterns, uniqueness counts), password encryption (AES-256-CBC through OpenSSL), login
  answers and the login flow, the Redis commands of a login state, the per-server session
  table, the event bus, and the settings derived from the configuration file.
- `app/` is the server around it: configuration file, connection pools, PostgreSQL and
  Redis calls, HTTP routes. It performs the actions that the library's state machines ask
  for and feeds their results back.
- `tests/` runs the library on concrete values.
