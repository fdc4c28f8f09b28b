# atm_parser

Loader of the SynthBank ATM logs into SQLite, with its parsing rules proved
in Verus.

- `src/` — the verified library:
  - `models` — the records of the seven source files (a float field is a
    `Real`: its bit pattern and its `{:?}` text); `models::flexible_float`
    decides which numeric cells are placeholders.
  - `parsers` — one module per source: `classify_severity` and
    `insert_plan`, the exact statements a parsed file yields, with the laws
    that reloading a source replaces its own rows only and that the reported
    counts are the rows written; `parsers` also gathers the laws of all
    seven feeds over `FeedRecords` (a load only inserts rows of its own
    source, its facts name seeded sources, a reload replaces exactly them).
  - `db` — statements and their parameters as values, the SQL text
    (`db::schema`), the `dim_source` seed rows, and `db::state`, a model of
    what statements do to the tables' rows, over which clearing twice,
    seeding twice and reloading unchanged content are proved to change
    nothing.
  - `watcher` — the watched files, when a file is loaded again (one file,
    or one pass over all seven with `check_files`), and the statements that
    clear a source before it is.
  - `text` — string equality and `Debug`/decimal renderings.
- `app/` — the program: reading files, JSON/CSV parsing with serde, running
  statements with rusqlite, and the polling loop.
- `tests/` — scenarios, including an in-memory SQLite database.
