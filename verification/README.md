# hpoint

The verified core of an event-point service: clients submit events over a
websocket (or gRPC), the server stores them in PostgreSQL under increasing
ids, and answers queries with the stored events.

- `src/` (Verus): the SQL text the store sends (`sql`, `pg`), the driver
  configuration (`connect`), decimal text (`text`), the protocol messages
  (`message`), the per-connection decisions of the websocket server
  (`session`), the HTTP range selection and configuration (`websocket`), the
  gRPC insert answer (`grpc`) and the test client's decisions (`client`).
- `app/` (plain Rust): the server program that reads sockets, talks to
  PostgreSQL and encodes JSON, performing the actions the library decides.
- `tests/`: tests of the library on concrete values.
