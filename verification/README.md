# conceptweave-relation-partition

Verified evidence layers for PostgreSQL 18 relation- and index-partition state, written in Verus.

Each layer is a snapshot built from raw catalog observations over the snapshots it extends. A
constructor canonicalises its observations (sorting them, refusing repeated or missing
positions), rebuilds the earlier layers it is given and requires their issued digests, checks the
layer's own catalog rules, and issues a domain-separated `sha256:` digest over length-prefixed
framing of what it accepted. Every constructor's contract states exactly when it refuses and with
which field, and what the issued snapshot holds.

Layout:

- `src/digest.rs`, `src/order.rs`, `src/text.rs`: framing, digest rendering, ordering and text
  helpers shared by every layer; `sha256` is the one call into the `sha2` crate.
- `src/catalog.rs`, `src/signatures.rs`, `src/error.rs`: catalog identities, base-snapshot
  values and the error type.
- `src/exclusion*.rs`, `src/expression*.rs`, `src/relation_var_snapshot.rs`,
  `src/collation*.rs`, `src/database_default_collation.rs`: index exclusion, expression,
  relation-`Var` and collation evidence.
- `src/constraint_*.rs`, `src/procedure_*.rs`: exclusion-constraint evidence and the evidence on
  its operators' implementation functions.
- `tests/`: scenario tests run against the compiled library.
