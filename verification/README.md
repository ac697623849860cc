# mediary_core

The core library of mediary, a media organiser: media files, their types and
tags, and the SQLite database that records them. The library is written in
Verus; its functions carry contracts that Verus proves.

Layout:

- `src/types/` — `MediaType` (its name and case-insensitive parsing), `Tag`
  (equality that ignores database IDs) and `Media`.
- `src/data/conversion.rs` — `SystemTime`, a point in time to the whole
  second from the Unix epoch, and its conversion to and from Unix
  timestamps.
- `src/data/database.rs` — the schema and the SQL text of every statement,
  the encoding of media and tags into statement parameters, their decoding
  from rows, and the database operations; `src/data/sqlite.rs` holds the trusted items through which
  `rusqlite` is called.
- `src/data/app_data.rs` — the path of a file in the app data directory.
- `src/scanner.rs` — the media type of a file's contents (through `infer`) and
  the outcome of a scan.
- `app/lib.rs` — what touches the environment and the file system: locating
  and creating the app data directory, opening the database there, reading
  files.
- `tests/` — the tests, run against the compiled library.
