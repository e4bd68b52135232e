# terminusdb_store_prolog

The layer between the predicates of a Prolog engine and a store of layered
triples. A layer is read either wholly in memory or lazily, block by block from
the storage; the library decides which read answers which query, and sees to it
that a failed read is never taken for an empty answer.

- `src/` is the library, verified with Verus.
  - `layer`, `reads`, `sinks`: layers, the reads that report an error, and the
    reads that record it.
  - `triple_query`, `value_query`, `predicates`: what the predicates answer.
  - `store`, `named_graph`, `pack`, `transaction`, `process`: stores, heads,
    packs, transactions and the memory of the process.
  - `name`, `entry`, `triple`, `error`, `prolog`, `text`: the values they share.
  - `layer_io`: the storage, as the library asks for it. `stored`: the calls on
    layers in memory.
  - `agreement`, `recorded_agreement`: what holds of the two ways of reading a
    layer.
- `tests/` runs the library over a store in memory.
- `app/` binds it to the Prolog engine and to the storage.

`terminus-store` and `tdb-succinct` keep large numbers with GMP, through `rug`.
`gmp-mpfr-sys` is named in `Cargo.toml` only to choose its `use-system-libs`
feature for all of them: GMP is then linked from the system, where it would
otherwise be compiled from source.
