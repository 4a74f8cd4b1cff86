# hnw

`hnw` is a keyboard-first terminal manager for [here.now](https://here.now):
sites, Drives and the account profile, driven from the keyboard.

The crate is split in two:

- `src/` is the verified library (Verus). It holds the data model of the
  here.now API, the application's state machine (`App::handle_key` turns a key
  into a state change and a `Command` for the outside to perform; the
  `finish_*`/`apply_*` methods take the API's replies back in), batch deletion,
  the text of every panel (`view`), relative update times (`time`), and the
  pure parts of the HTTP client: credential normalisation, request paths and
  the messages of failed requests (`api`). Properties that span several calls
  are proved in `laws`.
- `app/` is the terminal front end: command-line arguments, the credentials
  file and environment, HTTP requests with `reqwest`, JSON with `serde`, the
  event loop with `crossterm` and `tokio`, and drawing with `ratatui`.

The sites marked for deletion are a `SlugSet` (`src/slug_set.rs`): a vector
in which no slug occurs twice, viewed as a `Set` of texts. A
`HashSet<String>` would do the same job at run time, but vstd states too
little about a `HashSet` keyed by `String` for the marking and deletion
contracts to be proved over it, so the set keeps its elements in a vector
and carries the no-repeat rule as its type invariant.

The API key is taken from `HERENOW_API_KEY`, else from the file passed with
`--credentials` (which overrides the default file), else from
`~/.herenow/credentials` (`api::key_source`).

Run `cargo test` for the tests under `tests/`.
