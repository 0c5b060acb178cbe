# axum_learn_duckdb

A small REST service for student records (`data_mahasiswa`) and users, kept
in DuckDB, with bcrypt-hashed passwords, JWT session tokens and uploads to
MinIO.

- `src/` is the verified core. Each request handler is a state machine: it
  is started with the request's values, answers with an `Action` (take the
  connection's lock, run a statement, run a query, create a bucket, ...) and
  is told the outcome as an `Event`, until it answers with the reply to send.
  Handlers that run a fixed list of statements are `Script`s run by
  `ScriptRun`. bcrypt, chrono and jsonwebtoken's encoder are called from
  `src/` through trusted wrappers (`passwords.rs`, `dates.rs`, `jwt.rs`).
  `date_order.rs` proves that the texts of dates in years 0 to 9999 sort as
  the days they stand for.
- `app/` is the server: axum routing and extractors, the DuckDB connection
  and MinIO client that perform the actions, the clock, JWT decoding, and
  the JSON forms of the records.
- `tests/` runs the handlers on concrete outcomes.
