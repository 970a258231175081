# zotero_mcp_rs

The decision-making core of a Model Context Protocol server for Zotero,
written in Verus and verified: the security profile and its path and size
checks, PDF page selection, location of attachment files, the tool catalog
and its exposure modes, resource URI routing, the retry policy and bounded
reads of backend responses, and the bookkeeping of the semantic index.

Layout:

- `src/` — the verified library. Each module states its behaviour as
  `requires`/`ensures` over spec functions; the `law_*` proof functions
  state properties that relate several operations. The few calls into std
  and the `url` crate that Verus cannot see into are wrapped in small
  `#[verifier::external_body]` functions whose contracts say what they
  assume.
- `tests/` — ordinary Rust tests of the library on concrete values.
- `app/` — the process side: environment variables, filesystem facts,
  HTTP with `reqwest`, PDF parsing with `pdf-extract` and `lopdf`, and the
  floating-point vector scoring of semantic search. It gathers what the
  library needs and carries out what it decides.
