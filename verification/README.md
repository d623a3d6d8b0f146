# http_client

A small HTTP client layer with its decisions verified by Verus.

- `src/` is the verified library: HTTP methods and their names (`method`),
  the client's configuration, URL resolution, request preparation and
  response inspection (`client`), multipart forms and their conversion into
  `reqwest`'s multipart body (`multipart`), the prefixing logger (`logger`),
  the error type (`error`) and the outside types it carries (`outside`).
- `app/` is the I/O around it: sending a prepared request with `reqwest`
  (`SendRequest`), emitting log records with `tracing` (`Log`), and copies of
  `Error` and `Response` that carry `thiserror` and `serde` derives.
- `tests/` exercises the library on concrete values.
