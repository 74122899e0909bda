# lsp

Types for the Language Server Protocol, the `file://` URI conversions that go
with them, and the generator that writes the protocol's notification
constants from its meta model, verified with Verus.

- `src/uri.rs`: `Uri`, `from_file_path` and `to_file_path`, specified over
  the UTF-8 bytes of the path and of the URI.
- `src/round_trip.rs`: what reading back the URI of a path gives.
- `src/codegen.rs`, `src/generator.rs`, `src/names.rs`, `src/spec.rs`: the
  meta model, the generated text and the resolution of its names.
- `app/`: fetching the meta model, writing and formatting the files, path
  conversions and the serde forms of the types.
