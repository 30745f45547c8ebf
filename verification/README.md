# rustfs_mimalloc

A binding to the mimalloc V3 allocator whose logic is verified with Verus.

- `src/` is the verified library:
  - `utf8_lossy` decodes the bytes mimalloc prints or returns as text,
    replacing each maximal ill-formed UTF-8 subpart with U+FFFD, with the
    laws that relate it to vstd's UTF-8 encoding and decoding;
  - `output` turns mimalloc's returned strings and printed pieces into text:
    the error-latching sink for writers, and the bounded collecting buffer
    with its truncation notice;
  - `heap` holds heap handles (owned or borrowed), what releasing one asks of
    the allocator, and how the status codes of the arena calls become results;
  - `sys` holds the opaque C types and the option table with its C numbers;
  - `api` holds the allocator handle and the process information record;
  - `windows_link_libs` names the import libraries to link per target OS.
- `app/` declares the C functions and makes the calls: the global allocator,
  the option, statistics and arena functions, and heap handles that release
  their heap when dropped. Each decision around a call is made by `src/`.
- `tests/` exercises the library, including a comparison of the decoder with
  `String::from_utf8_lossy` over all two-byte inputs.
