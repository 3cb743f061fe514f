# gqlforum

A GraphQL forum server.  `src/` is the verified library (Verus): signed
session cookies, session tokens, credentials and permissions, the decisions
of the account mutations, the rules that turn query rows into the forum's
types, and the browser client's query and display rules.  `app/` is the
server around it: configuration, the SQLite store, the GraphQL schema and
the HTTP routes.

- `src/crypto.rs` — the only calls into `hmac`, `sha2`, `base64` and
  `argon2`, with the contracts the rest of the library relies on.
- `src/cookies.rs` — signing and verifying cookie values; signing then
  verifying under the same key gives the value back.
- `src/session.rs`, `src/authentication.rs`, `src/authorization.rs`,
  `src/account.rs` — sessions, password checks, permissions, and login,
  logout and password change.
- `src/forum.rs`, `src/topics.rs` — the forum's data and row rules.
- `src/client.rs`, `src/text.rs`, `src/configuration.rs` — query
  minimization, display texts, settings.

The server reads `configuration.toml`, the SQL of its longer queries from
`sql/`, and applies the migrations in `migrations/` at startup.
