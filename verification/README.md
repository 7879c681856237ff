# psqlpy

The core of an asynchronous PostgreSQL driver for Python, written in Verus:
the parts of the driver that decide and compute are verified against their
contracts, and a thin Python extension module runs them against the
database.

## Layout

- `src/` — the verified library.
  - `format_helpers` — quoting of identifiers and literals, with the proof
    that a quoted value reads back as one token holding the original text.
  - `query` — named placeholders `$(name)p` made positional, and the hash
    of a query text; `cache` — prepared statements by that hash.
  - `sql` — the statements the driver sends (transactions, cursors,
    savepoints, `COPY`).
  - `copy_binary` — the binary `COPY FROM STDIN` stream, cut into chunks.
  - `execute_many` — the decisions of a batch run: bracketing, pipelining,
    rollback on failure.
  - `connection`, `lifecycle` — when connections, transactions, cursors and
    listeners may be used, and what their steps do.
  - `listener` — callbacks per channel and the `LISTEN`/`UNLISTEN`
    statements that keep the server's subscriptions in line.
  - `config`, `connection_pool`, `options` — connection settings, TLS and
    pool choices.
  - `records`, `arrays`, `codecs`, `parameters`, `extra_types` — rows as
    records, arrays as nested lists, raw value codecs, parameter layouts.
  - `errors` — the driver's errors, their messages and Python classes.
  - `text` — decimal rendering and string helpers.
- `tests/` — tests of the library on concrete values.
- `app/` — the Python extension module (`pyo3`), connection pools
  (`deadpool-postgres`), TLS (`openssl`) and value conversions.
