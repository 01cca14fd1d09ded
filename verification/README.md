# log_pulse

A log ingestion service: applications stream log entries over gRPC, the service
stages them in Redis and writes them to ClickHouse in batches.

- `src/` is the verified library: the messages and their conversion to stored
  rows (`grpc`, `log_row`), the configuration (`config`), the services that hold
  the store connections (`services`), and the decisions of the background worker
  (`worker`), of a flush of the buffer (`flush`), of a batch insert
  (`batch_insert`) and of the client library that
  streams an application's events (`sdk`).
- `app/` is the program around it: configuration files, the gRPC server and
  client, the store connections, the worker loop and the tracing layer.
- `tests/` exercises the library on concrete values.
