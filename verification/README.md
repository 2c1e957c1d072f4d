# auth_service

A small account and session service over HTTP, with its logic verified in
Verus.

- `src/` is the verified library: salted hashing of passwords and session
  tokens (`hash`), the routing of requests (`api_endpoints`, `routing`), and
  one state machine per endpoint (`api_endpoints/*`). A machine never touches
  the database or the environment itself; it asks for that work with an
  `exchange::Action` and continues on the `exchange::Event` that reports the
  outcome. Where an endpoint needs the clock or a fresh token, `advance`
  takes them as arguments and is exact for each value, and `step` reads the
  clock and draws the token, then calls `advance`. Properties that span
  endpoints are proved in `laws`.
- `app/` is the server: it reads requests, runs the machines against MongoDB
  and the environment, and writes the replies.
- `tests/` exercises the library on concrete inputs.

Environment: `PORT`, `DB_URL`, `DB_NAME`, `USER_SALT`, `TOKEN_SALT`.
