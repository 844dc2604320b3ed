# paimon (verified core)

The decision and text-processing logic of the Paimon Rust bindings, written in
Verus and proved against its contracts.

- `src/` — the verified library:
  - `table_type` — the `type` option of a table, with ASCII case-insensitive parsing;
  - `storage_hdfs` — HDFS relative paths and the configuration an HDFS operator is built from;
  - `time_travel` — snapshot selection as steps between storage lookups;
  - `full_text` — byte ranges of batched index reads and the filling of their buffers;
  - `object_table` — the columns of a batch of listed objects and scan projections;
  - `table_loader` — branch and data-table decisions when loading a table;
  - `blob_ffi` — argument checks and seek mapping of the blob-reader C interface;
  - `text`, `error` — shared string operations and error types.
- `app/` — the I/O around it: building the HDFS operator, the asynchronous and
  file-backed ranged readers, and the lookup loop of time travel.
- `tests/` — tests of the library.
