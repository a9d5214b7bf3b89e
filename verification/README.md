# content_ops_analytics

Content-operations analytics for CMS webhooks: a webhook ingest function that
stores each webhook as a normalized event in a Hive-partitioned Parquet
layout, a metrics service that aggregates the events with DuckDB and serves
them over HTTP and MCP, and a tool that writes local debug data sets.

The library in `src/` is verified with Verus. Public functions state their
results in their `ensures` clauses; where a result rests on the system
clock or the random bits of an identifier, the clause states what holds of
every outcome.

- `text`, `time`, `json`: character-sequence helpers, instants and JST
  calendar days, and the JSON document model of a webhook.
- `event_kind`, `status`, `normalize`: classification of a webhook into one
  of fourteen event kinds, canonical status sets, and the normalized event
  record.
- `signature`, `storage`, `ingest`: HMAC-SHA256 webhook signatures, object
  keys and partition directories, and the decisions of the ingest function.
- `event_file`: event batches laid out as the stored columns and written as
  Parquet files through the Arrow writer.
- `seed`: the seeded generator, smoke fixtures, the bulk calendar and the
  bulk event generator with its per-kind targets.
- `api`: settings, request validation, MCP access control and the SQL of the
  metrics service.

`app/` holds the runtime around the library (Lambda handler, S3, the
deserialization of webhook bodies, file output, DuckDB, axum and MCP), and
`tests/` exercises the library on concrete values.
