# scoreboard

The decision logic of a live-sports backend, verified with Verus.

- `src/time.rs` — instants (`Timestamp`) and the clock.
- `src/entity.rs` — stored matches and commentary, and rows about to be inserted.
- `src/match_status.rs` — a match's status at an instant; syncing a stored status with the clock.
- `src/validation.rs` — request bodies and queries: listing limits, score range rule, rows to insert.
- `src/response.rs` — reply bodies and status codes.
- `src/routes.rs` — the replies of the match and commentary routes, and what they broadcast.
- `src/scoring.rs` — a score update as a step function over the store's answers.
- `src/ws/` — socket messages, the subscription registry, and the handling of client frames.
- `app/` — the HTTP server, database tables, JSON shapes and the socket loop around the library.
- `tests/` — tests of the library on concrete values.
