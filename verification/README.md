# slate

Partial transactions that wallets pass around until all participants have signed,
written and proved in Verus.

- `src/` is the library. Every operation on a slate has a contract; `src/laws.rs`
  and the end of `src/v4.rs` state what holds over several operations. What is taken
  for granted of other crates stands in `src/curve.rs` and `src/outside.rs`.
- `tests/` runs the library with the real cryptography.
- `app/` has the JSON form of slates and ties the operations to the rules of a chain.
