# operation_log

A service that records the changes made to documents and replays them.

- `src/` is the verified library: operation kinds and their names, pagination, the
  stored form of an operation and how it reads back, the replay query and timeline, the
  retry policy of batch writes, the batching state of the writer, and the answers the
  HTTP endpoints give.
- `app/` is the server around it: axum routes, the SQLite pool and queries (sqlx), the
  tokio tasks, logging, and the serde forms of the records.
- `tests/` exercises the library.
