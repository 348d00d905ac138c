# planar

The verified core of planar's local runner.

- `src/` is the library, verified with Verus: hierarchical metadata keys and their
  storage paths (`metadata`, `metastore`), table definitions (`table_md`), the URL of
  a locally served function (`function`) and the error a finished service loop is
  reported with (`service`). The proof functions in `metastore` state that distinct
  keys get distinct storage paths.
- `app/` is the runner around it: the HTTP server and client (hyper), the AMQP
  publisher and consumer (lapin), the etcd metadata store and the service runtime
  (tokio).
- `tests/` exercise the library.
