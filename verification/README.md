# foundry

Static persistence of computed values as `.matrix` artifacts.

`src/` is the verified library:

- `mold_runtime`: acceptance of a runtime artifact (39-byte header, payload) and
  decoding of its payload through a caller-supplied decoder.
- `capture`: build-time artifacts (31-byte header stamped with source and
  dependency hashes), their construction and their examination.
- `metadata`, `runtime`: the 40-byte pattern header and access to the payload
  behind it.
- `hashing`: source, lockfile and environment signatures.
- `pattern`: FNV-1a identity of pattern functions and the names generated for them.
- `shape`: the `Shape` contract and the syntactic audit behind `#[derive(Shape)]`.
- `forge`: the decisions of the build step and the generated lookup table.
- `byte_order`, `text`: fixed-width integers in a chosen byte order; text comparison.

`app/` holds the file and environment access, the bincode/serde and rkyv calls,
the procedural-macro bodies on `proc_macro2`, and the `mold!` macro.
