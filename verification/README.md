# abi_stable (verified core)

The computations behind a library for ABI-stable Rust and its derive macros,
written in Verus with their contracts proved:

- `type_info`: `TypeInfo`, the metadata kept about a type in a `DynTrait`
  vtable, when two of them describe the same type, and its text.
- `syntax`, `datastructure`: a type definition as a derive macro reads it
  (with the shape a parser guarantees, `derive_input_valid`),
  and `DataStructure`, its variants and fields with their positions,
  visibilities, names and counts.
- `literals`: the byte length of a string literal's value (the input is
  lexed by `proc-macro2`, and only a single string literal is read by `syn`).
- `abi_header`: the header a dynamic library exports.
- `text`: base-ten writing and reading of integers.

`app/` holds the token plumbing of the procedural macros: converting `syn`
values into the library's values and the results into tokens with `quote`.
