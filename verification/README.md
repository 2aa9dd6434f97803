# rs_reconcile

Building blocks that compare the counts a source and a target report for a key.

- `src/` is the library, verified with Verus: the comparison as a state machine
  (`compare`), raw counts and their parsers (`count`), files that hold raw
  counts (`source::fs`) or counted content (`target::fs`), and the gRPC status
  that a failed file operation is reported with (`grpc`, `io_error`).
- `app/` holds the asynchronous traits (`CountSource`, `CountSourceRaw`,
  `CompareCountSource`, `PathToRaw`, `PathToRead`, `ReadToCount`) and their
  implementations for the library's types. Each awaits what it needs and hands
  the answers to the library.
- `tests/` runs the library on concrete values.
