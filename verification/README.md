# justpic

The verified core of a picture-sharing web service: users, sessions, picks
(uploaded pictures), their access rules, and the flows that cache answers and
process uploads.

- `src/` is the library, written in Verus. Its functions carry contracts
  that Verus proves, except the few marked `#[verifier::external_body]`
  (in `ids.rs`, `clock.rs`, `crypto.rs`, `api.rs` and `text.rs`): these call
  uuid, time, base64, argon2, validator and std, and their contracts are
  believed, each stated in its doc comment. The `law_*` proof functions state
  what holds across functions (text round trips, access by role rank, the
  cached fetch, the processing of an upload, storage paths of uploaded files).
- `app/` is the HTTP server around it (actix-web, PostgreSQL through sqlx,
  Redis, S3): it reads requests, performs the database, cache and store work,
  and asks the library for every decision.
- `tests/` runs the library on concrete values.

Ids are kept as the 128-bit value of a UUID and instants as nanoseconds since
the Unix epoch; `app/` converts them to `uuid::Uuid` and
`time::OffsetDateTime` at the database.
