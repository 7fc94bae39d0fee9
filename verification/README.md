# ariadnion_api

Bounded, transport-neutral public service contracts of the Ariadnion API and
the verified rules around them, written in Verus.

- `src/domain` — request, response, chat, embedding, image, audio (WAV),
  file, batch and Realtime value types, each with its validation rules.
- `src/files` — file-service errors, chunks, pages, upload and delete
  requests, and the catalog record.
- `src/admin` — administration commands: validation, authorization binding,
  replay receipts, and the executor over its ports.
- `src/http` — header admission, credentials, error projections, file routes
  (headers, listing, upload, download), public request execution, upgrades,
  bounded JSON bodies and Base64 media encoding.
- `src/realtime_*` — the tenant-scoped Realtime session table, its event
  queues, and the requests made on it.
- `tests/` — executable scenarios over the library.
- `app/` — runtime plumbing that cannot be verified: clocks, locks, JSON
  framing with serde, and floating-point embedding values.

`base64` is called from the library through trusted wrappers in
`src/http/base64_encoding.rs` and `src/http/file_list.rs`; `serde` and
`serde_json` are used by `app/` only.
