# moviestream

The core of a local movie library and player, written in Verus: the rules
that decide what a file name means, what a scan does with each file, what the
streaming server answers, how a playback session evolves and what progress is
saved, each with a contract that Verus proves.

- `src/` — the verified library (one module per concern: `filename_parser`,
  `scanner`, `local_fs`, `media_analyzer`, `probe`, `codec_names`,
  `metadata_provider`, `metadata_resolver`, `tmdb`, `library`, `playback`,
  `player`, `stream_server`, `stream_content`, `domain`, and the shared
  helpers `text`, `paths`, `regex_ops`, `url_encoding`).
- `tests/` — tests of the library, run against the compiled crate.
- `app/` — the input and output around it: the HTTP server (axum), the file
  system walk, the libVLC engine, the metadata services (reqwest), the SQLite
  database, and the services that call the library in order (library
  sources, scans, playback, the watchlist, history and settings).
