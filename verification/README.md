# opencog_atoms

A verified AtomSpace for symbolic knowledge, with the decision logic of a
goal-directed MeTTa inference run.

- `src/` is the library, proved with Verus:
  - `types.rs`: atoms, identifiers (UUID values), truth and attention values
    (as binary64 bit patterns), requests and results, with their models.
  - `atomspace.rs`: the store of atoms by identifier; statistics per kind;
    substring pattern queries; the laws that relate its operations.
  - `inference.rs`: premises, goal evaluation, and an inference run as a
    state machine that asks its driver to evaluate goals.
  - `text.rs`: substring search and decimal rendering.
  - `config.rs`, `error.rs`, `clock.rs`.
- `app/` is the service around it: serde/OpenAPI copies of the types, the
  process-wide instances, the bridge to the Hyperon interpreter, and the HTTP
  endpoints.
- `tests/` exercises the library on concrete values.
