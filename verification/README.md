# andromeda_contracts

Verified models of two Andromeda CosmWasm contracts, written in Verus:

- `src/rate_limiting_withdrawals.rs`: a vault for one native coin with a
  per-withdrawal limit and a minimal time between withdrawals of an account;
  the minimal time is given directly or read from another contract, through
  a small query machine (`FrequencyLookup`).
- `src/nft_timelock.rs`: a time lock for NFTs, claimable by their recipient
  once the lock has expired.
- `src/chain.rs`: the chain vocabulary the contracts share (coins,
  timestamps, expirations, responses, errors, payment checks).
- `src/text_map.rs`: the keyed storage bucket, a list with distinct keys.
- `src/version.rs`: semantic versions, through the `semver` crate.
- `src/laws.rs`: properties of two or three calls in a row.
- `src/runs.rs`: runs of each contract (sequences of calls with their
  answers) and the properties that hold along any run.

`app/` holds the CosmWasm entry points: they load storage, call the library,
perform the queries it asks for, and store the results.
