# deprader

Verified building blocks of the DepRadar toolkit.

- `src/typosquat/` — typosquat detection for package names: the Levenshtein
  edit distance over Unicode scalar values and the nearest popular name
  (`distance`), the proof that the distance is the length of a shortest chain
  of single-character edits (`edit_paths`), the lookalike-character
  normalisation (`homoglyph`), the bundled popular-package lists and their
  parser (`popular`, `dataset`), and the combined scorer (`scanner`).
- `src/cve/osv_client.rs` — the records and decisions of an OSV.dev query:
  the request for a package/ecosystem/version, the verdict on the reply's
  HTTP status, and the typed vulnerability records.
- `src/deprader_router.rs` — the decisions of the bounty router contract and
  its error codes.
- `app/` — the unverified edges: the `scan` command line, the HTTP exchange
  with OSV (reqwest, serde), and the Soroban contract entry points.
- `tests/` — tests of the library on concrete values.
