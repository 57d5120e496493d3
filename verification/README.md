# bookshelf

A small lending-library web service: readers register and log in with a
bearer-token session, browse and search the catalogue, see their loans and
ask to renew them; staff add and remove books, lend and take back books,
manage accounts and decide renewal requests.

- `src/` is the library, verified with Verus: the rules of every request
  (who may act, what is checked, what is stored, what is answered), the
  session and password logic, the catalogue search and listings, loans and
  renewals. `src/laws.rs` states and proves the properties that hold across
  operations (a book has at most one active loan, a login token opens its
  session, a renewal request is decided once, and so on).
- Calls into `argon2`, `uuid`, `jiff` and `rand` stand behind small trusted
  wrappers in `src/credential.rs`, `src/text.rs` and `src/time.rs`, whose
  doc comments say what is assumed of them.
- `app/` is the program around the library: configuration (`toml`), the
  database (`toasty`), the HTTP routes (`axum`, `tokio`) and logging
  (`tracing`). Each handler reads, asks the library what to do, and writes
  or answers accordingly.
- `tests/` runs the library on concrete values.
