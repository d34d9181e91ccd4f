# visdata

Enterprise features of VisData — role-based access control through OpenFGA, single
sign-on through Dex, log pattern extraction and audit records — with the decisions,
tuple layouts, parsers and algorithms verified by Verus.

## Layout

- `src/` — the verified library.
  - `openfga/` — the tuple vocabulary, the resource catalogue, the tuples that roles,
    groups and users are made of, permission checks, paged reads, store selection, and
    the laws of what reads give back of writes (`laws.rs`).
  - `dex/` — permissions and role requests, the PKCE values and token-endpoint forms,
    authorization URLs, key sets, ID-token verification (`jwt.rs`: the header's key ID,
    the signature, audience and issuer checks through `jsonwebtoken`, the claims read
    from the payload, and the validation answer), login cookies and connector
    configurations.
  - `log_patterns/` — token type recognition, the message accumulator and the clustering
    extractor, with the laws of what every extraction reports.
  - `meta/`, `config.rs`, `setup.rs`, `error.rs` — API records, settings and errors.
  - `text.rs`, `sorted.rs` — string helpers with exact specifications, and sorting of
    names.
- `tests/` — tests of the library on concrete values.
- `app/` — the HTTP clients, services, handlers, global instance, configuration from the
  environment, and the floating-point parts of pattern extraction.
