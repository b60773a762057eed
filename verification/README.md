# private_payments_harness

The decisions of two tools of a private payments project, verified with Verus.

- `src/migrations.rs` decides how the bootnode's Postgres schema is brought up to
  date. `src/migration_model.rs` states what its runs do to a database: migrations
  are applied whole, in order, once, and a run that was cut is made good by the
  next.
- `src/scenario.rs` holds the browser end-to-end tests of the web client as scripts
  and judges their outcomes. `src/scenario_laws.rs` states what a test has shown
  when it passes.
- `src/signer.rs`, `src/signing.rs`, `src/storage.rs`, `src/scripts.rs`,
  `src/response.rs` and `src/environment.rs` hold what the tests use: signers and what
  they do, the page's shared storage, scripts, the pool's answers, configuration.
  `src/progress_model.rs` states what recording the progress of flows does in a page.
- `src/encoding.rs`, `src/text.rs` and `src/report.rs` hold base64, text, and how values
  are printed.

`app/` is the host side: the database connection and the browser page. `tests/`
holds the tests of the library.

What is trusted: the standard engine of the `base64` crate (`src/encoding.rs`),
`str::trim` of std (`src/text.rs`), and how std prints a text for debugging
(`src/report.rs`).
