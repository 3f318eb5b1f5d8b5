# aura

The rules of the Aura social server (chat channels, user accounts, posts and
their feed, uploaded resources, e-mail verification codes), written in Verus
with contracts proved against mathematical models.

- `src/` is the verified library. `logic/` holds the decisions of each
  service (who may change a channel, which posts make up a feed, how a
  reaction moves an interest profile, who may upload or download a resource),
  `types/` the domain types with their views, `database.rs` the rows of the
  store and how they make up the domain types, `auth.rs` password hashing and
  token checks, `email.rs` the register of pending verification codes, and
  `serde_duration.rs` the text form of durations. Public `law_*` proof
  functions state the properties that span several operations.
- `tests/` runs the library on concrete values.
- `app/` is the server around the library: settings, the Postgres store,
  the gRPC services, the operator console, e-mail delivery, text embedding and
  the floating-point parts of feed scoring.
