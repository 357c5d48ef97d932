# address_standardizer_wasm_pagc

US address standardization around the PAGC engine (the parser behind
PostGIS's `address_standardizer`).

- `src/` is the verified library: the checks made before each engine call
  (`standardize::standardize_mm_request`, `parse::parse_request`), the
  reading of the engine's raw records into a `StandardizedAddress`
  (`standardize::standardize_mm_finish`, `parse::parse_finish`), and the
  one-line rendering `text::as_text`.
- `app/` holds the FFI surface of the C engine, its lazily built instance and
  the calls into it, plus the WIT-facing record and conversions.
- `tests/` exercises the library on concrete values.
