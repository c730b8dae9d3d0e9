# smeta-check

A service that checks renovation estimates: a user uploads the estimate of
a crew (an Excel book or a photograph of the sheet) and gets it parsed into
lines, recognised works next to the rows a person should ask about.

The rules of the service are a library verified with Verus; the server
around it is ordinary Rust.

- `src/` — the verified library `smeta_check`:
  - `estimates/` — accepting a file, the queue of parsing, and the parser:
    finding the header of a table (`parse/header.rs`), reading a row
    (`parse/line.rs`), the limits of a book (`parse/book.rs`), the lines of
    a photographed sheet (`photo.rs`);
  - `auth/` — registration and login, the second factor, sessions and
    their list, the account, OAuth providers, signed tokens (JWT);
  - `config.rs`, `guards.rs`, `i18n.rs`, `users.rs`, `jobs.rs`, `llm.rs`,
    `items.rs`, `ops.rs`, `dto.rs`, `error.rs`, `dates.rs` — the rest of
    the rules;
  - `text.rs` — the toolkit of text as sequences of characters;
  - `crypto.rs` — the calls into the cryptographic crates, with the
    contracts they are trusted with;
  - `laws.rs` — properties that span functions, proved.
- `tests/` — tests of the library on concrete values.
- `app/` — the server: HTTP (axum), Postgres (sqlx), the background
  worker, mail, metrics, localisation (Fluent), the operator's commands.

The server reads the Fluent dictionaries from `LOCALES_DIR` (`locales/<code>/main.ftl`)
and the migrations from `MIGRATIONS_DIR` (`./migrations`).
