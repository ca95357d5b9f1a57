# dashboard_auth

The rules of a small dashboard web service, verified with Verus.

- `src/config.rs`: the configuration (JWT, HTTP server, database settings) and its getters.
- `src/token.rs`: the claims of an issued token, the rules a request's token is
  checked against, the extraction of the token from the `Authorization` header,
  and the answer to a request after the check.
- `src/login.rs`: the login decision, with bcrypt behind two trusted wrappers.
- `src/state.rs`: the state handed to the request handlers.
- `app/`: the axum service around the library: configuration file, JWT
  encoding and decoding with `jsonwebtoken` (serde on the claims), HTTP
  handlers, tracing layers, Kafka.
