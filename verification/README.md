# wagr

The decision logic of the Wagr wagering contracts (escrow, resolver, payout),
verified with Verus.

- `src/` is the library. Each contract's stored state is a plain-value struct
  (`EscrowContract`, `ResolverContract`, `PayoutContract`). Its view is a
  mathematical model (`EscrowModel`, `ResolverModel`, `PayoutModel`). Each
  contract call is a method whose contract gives the result and the new state
  exactly, over spec functions of the model. The laws of each contract are
  public proof functions in `src/<contract>/laws.rs`. The helper modules
  (fees, multiplayer matches, pausing, timeouts, access control, upgrades,
  dispute evidence, storage bookkeeping) sit beside them.
- `src/assoc.rs` is a keyed store with distinct keys (`AssocList`), seen as a
  `Map`. `src/text.rs` has the list and decimal helpers.
- `tests/` runs the library on concrete values.
- `app/` wraps the library in Soroban contracts. It loads the state from
  instance storage, checks authorisation, moves tokens, publishes events and
  installs new code, then saves the state back.
