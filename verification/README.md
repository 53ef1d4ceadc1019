# esdt_nft_marketplace

A verified model of an NFT marketplace smart contract for MultiversX:
fixed-price sales, auctions with bids, offers on single NFTs, global offers on
collections, deposits, creator fee configurations and the admin endpoints.

Each endpoint is an executable Rust function, verified with Verus against a
spec function that states the storage it leaves and the actions (transfers,
wrapping calls, aggregator calls, events) it asks the chain to perform; an
endpoint that fails leaves the storage unchanged.

- `src/` — the verified library.
  - `storage.rs`: the contract storage, its mathematical view, and the facts
    about the chain that a call is made with.
  - `collections.rs`: the storage collections (ordered sets, keyed maps,
    families of sets, amounts) with their views.
  - `helpers.rs`, `common.rs`: fee splits, payments, settlement of sales.
  - `init.rs` (the current contract), `marketplace_main.rs` (the
    single-listing contract), `offers.rs`, `pools.rs`, `admin.rs`,
    `creator.rs`, `views.rs`, `dex.rs`, `wrapping.rs`, `events.rs`.
  - `records.rs`: decoding of stored offers, through the MultiversX codec.
  - `laws.rs`, `invariants.rs`, `offer_index.rs`, `payouts.rs`: properties
    that span several functions, proved.
- `tests/` — tests on concrete values.
- `app/` — a small driver that applies the actions of a call to account
  balances, outside the verified code.
