# rwa_marketplace

A marketplace for fractional shares of a real-world asset, written in Verus.
The library holds the marketplace's state and decides every request: it
either refuses the request with a `MarketError` and changes nothing, or
updates the state and returns the effects the host must carry out
(authorizations, token transfers, certificate mints, code updates, events).

- `src/market.rs`: the state, its mathematical view (`MarketView`) and the
  share-conservation invariant.
- `src/purchase.rs`, `batch.rs`, `vesting.rs`, `trading.rs`, `buyback.rs`,
  `dividends.rs`, `bridge.rs`: the operations on shares and payments.
- `src/admin.rs`, `governance.rs`: administration, whitelist, upgrades,
  pauses, circuit breaker, snapshots and timelocked actions.
- `src/table.rs`: a keyed table with a verified map view and total weight.
- `src/laws.rs`: properties that span several operations.
- `app/`: a host that runs the marketplace in a Soroban environment.
