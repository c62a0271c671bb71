# sync-cli

The `sync-v2` command line tool keeps anime and manga collections in step
across Bangumi, AniList and MyAnimeList. This crate holds its decisions and
reports, verified with Verus; the program around them lives in `app/`.

Layout of `src/`:

- `text`, `json`: character sequences, decimal text and substring search;
  JSON reports as plain values.
- `model`: providers, media kinds, datasets and output formats, and their
  parsers.
- `flags`, `auth_options`, `sync_options`, `import_options`, `sync_inputs`:
  the arguments of every command, each parser stated as a fold over its
  flags.
- `callback`, `session`, `token`: pasted OAuth callbacks, session records and
  the URL-safe tokens a session is begun with.
- `credentials`: where credentials are kept, and the test bundle codec.
- `fixtures`: the canned provider responses and the fixture read transport.
- `plan_report`, `sync_reports`, `auth_reports`, `import_reports`: every
  report, as text and as JSON.
- `cli`, `auth_commands`, `sync_commands`: the choice of command and, for
  each command, what it prints and how it exits given what the database,
  the files and the transports gave back.

`app/` reads the arguments, the environment, the clock and the files, runs
the core crate's planner, stores and transports, and prints what the library
decides.
