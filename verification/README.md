# openfxdb

The business rules of an open database of *effects* (products and services)
and *entries* (places) in the economy, with their contracts proved.

Layout:

- `src/` — the verified library.
  - `entities.rs`: the stored records; coordinates and amounts are carried as
    IEEE-754 bit patterns (`FloatBits`), since the library never computes with
    them.
  - `error.rs`: parameter, repository and password-hashing errors.
  - `text.rs`: removing `#` from tags and collapsing repeated tags.
  - `outside.rs`: the trusted calls into `uuid`, `chrono` and `pwhash`.
  - `usecase/`: each use case decides, from a request and what was read from
    the repository, either an error or the ordered list of storage commands
    (`DbCommand`) to carry out, and the answer.
  - `json.rs`: the JSON forms and how records become them.
  - `laws.rs`: properties spanning several use cases (versioning, tags,
    logins, subscriptions, notifications, ratings).
- `tests/` — tests of the library on concrete values.
- `app/` — around the library: serde forms of requests and answers, the
  repository interface and the execution of storage commands, the rules that
  validate, match, sort and locate (floating-point geometry), and the use
  cases as the web layer calls them.
