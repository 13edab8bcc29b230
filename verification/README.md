# elearning

E-learning back end of the Mairie 360 platform, written in Verus.

- `src/database/` — the SQL queries that the handlers send (each a query
  description whose parameters are fixed by a type invariant) and the rows
  that the database answers.
- `src/endpoints/v1/admin/` — the payloads that the admin routes return, the
  mapping from rows to payloads, the errors with their status and message,
  and, for each route, the decisions taken between two database round trips.
- `src/timestamp.rs` — dates as plain values (naive wall-clock and UTC).
- `app/` — the actix handlers, serde and OpenAPI copies of the payloads, and
  the database calls themselves.
- `tests/` — tests on concrete values.

`src/` is verified with Verus: every public function states what it returns,
and the laws that span several functions (identifiers sent and read back, the
order of the checks before a registration) are proof functions.
