# volt-usb-manager

A journaled, RAM-first manager for removable storage. The library under
`src/` is written in Verus: each public function carries a contract, and the
laws the manager relies on (records and messages read back as written, replay
applies only committed operations, quotas and logs stay within their bounds)
are stated and proved as proof functions beside the code.

Layout:

- `src/journal` — the record format, the write-ahead log reader, replay
  planning and recovery decisions.
- `src/sbp_usb` — the SBP-USB wire format, requests, responses and handlers.
- `src/metadata`, `src/fuse` — file records, the manifest, the path index,
  path checks and the on-disk format version.
- `src/safety`, `src/ram`, `src/metrics`, `src/prefetch`, `src/runtime` —
  guards and invariants, memory quotas, counters and histograms, warm-up
  planning, and command selection.
- `src/util` — text, numbers, bytes and digests used throughout.
- `app/` — the program: command line, files, sockets, signals, JSON and the
  floating-point reports, calling into the library.
- `tests/` — tests of the library.
