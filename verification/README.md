# maangframe

The core of a multi-tenant web platform (white-label sites on shared hosts),
written in Verus. The functions in `src/` carry contracts that Verus
proves; the few calls into std and outside crates (hashing, Argon2, random
bytes, the clock, formatting) sit in small wrappers marked
`#[verifier::external_body]`, whose contracts Verus takes as given.

- `src/` — the library.
  - Text and encodings: `text`, `hexenc`, `html`.
  - Security: `crypto` (SHA-256, Argon2), `passwords`, `sessions` (session
    records, the in-memory session store, cache tokens), `csrf`,
    `ratelimit`, `random`, `clock`.
  - The tenant site: `web` (page models, sign-in and sign-up, the
    authentication and CSRF guards), `accounts`, `content`, `storage`,
    `email`.
  - Operations: `labels` (white-label records and admin views), `billing`
    (payment webhooks), `webhook_signature` (the HMAC-SHA256 signature of a
    webhook), `jobs` (the worker's retries and the maintenance schedule),
    `provision`, `tenant_ops`, `release`, `archive_files`, `archive_maang`,
    `snapshots`, `health`.
- `tests/` — tests of the library on concrete values.
- `app/` — the `maangframe` command: the web server and the operations
  tools. It performs the I/O (HTTP, PostgreSQL, Redis, files, processes) and
  leaves every decision to the library.

Properties that span several calls are stated as proof functions named
`law_*` next to the functions they relate.
