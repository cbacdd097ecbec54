# fem_ui

The decision logic of a FrontISTR pre/post-processing user interface, written
in Verus and proved against its contracts.

- `src/` is the verified library. Each module states what its functions do
  over mathematical models (`Seq`, `Set`, `int`, views of the library's
  types); floating-point values are carried as their IEEE 754 bit patterns.
  TOML documents (solver preferences, the material catalogue) are read and
  written with `toml_edit` through the small set of trusted wrappers in
  `src/toml.rs`; every other function is verified.
- `app/` is the host side: file and environment access, the background
  catalogue reload, and the conversions that need floating-point arithmetic
  (parsing and formatting numbers, unit scaling of catalogue constants).
- `tests/` exercises the library on concrete values.
