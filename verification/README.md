# trampoline_router

A router of Lightning payments that can be told to receive over one trampoline path.

As long as no path is configured, every request for blinded payment paths goes to an inner router,
and its answer comes back unchanged. Once an ordered list of nodes is set, the answer is one blinded
trampoline path: the first node of the list is its introduction node, each node forwards to the one
after it, and the last forwards to the recipient. Every relay works for free and takes an expiry
delta of 144 blocks. There is no path where the expiry deltas add up to more than 65535 blocks, or
where no value is acceptable to the recipient and to every relay.

- `src/` is the library, verified with Verus. `src/ldk.rs` holds everything that is believed of
  `lightning`, `lightning_types` and `bitcoin` rather than proved; `src/laws.rs` holds the
  properties of the paths as a whole.
- `app/` implements `lightning`'s `Router` trait with the library, around any inner router.
- `tests/` runs the library against the real crates. One test decrypts a path and reads what each
  hop is told.

## The `_test_utils` feature

`lightning` opens its constructor of trampoline paths to other crates only under its `_test_utils`
feature, and there only by way of a helper, so the feature is switched on. Cargo unifies features:
every program that links this library gets `lightning` with the feature's other effects too. Among
them:

- The network graph accepts a `channel_update` whatever its timestamp; otherwise one that is older
  than two weeks, or more than a day ahead, is rejected.
- An incomplete multi-part payment is failed after one timer tick instead of three.
- `lightning`'s test helpers become public, and a channel signer also has to offer
  `unsafe_sign_holder_commitment`.
- `regex` and `bitcoin`'s `bitcoinconsensus` are built as dependencies.
