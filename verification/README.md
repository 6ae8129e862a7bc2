# pallets

Verified models of four runtime pallets, written in Verus:

- `tokensale`: sale rounds of an entity's token (fixed price, Dutch auction,
  whitelist allocation), subscriptions, vesting and unlocks, refunds after a
  cancellation, withdrawal of raised funds, and the block hook that ends rounds.
- `ads`: advertising campaigns with escrowed budgets, delivery receipts from
  TEE nodes, era settlement split between community, node pool and treasury,
  stake-bound audience caps, slashing, anti-fraud checks and preference lists.
- `ceremony`: key ceremonies of bots, enclave approval, and the block hook that
  expires ceremonies and flags those at risk.
- `community`: signed action logs, community configuration with versioned
  updates, member reputation with cooldowns, bans.

Each pallet's storage is a plain value (`Pallet`). A call checks its inputs,
updates that value and returns the currency and token operations the runtime
must carry out (`Effect`); facts owned by other pallets (an entity's owner, a
bot's key, a node's status) are passed in. Contracts state every error and the
exact new state; the two log-submission calls, whose signature check runs
outside the library, state what holds whatever the check returns, and their
`*_with_signature(s)` counterparts state the result for each outcome of it. Laws
that span calls are public proof functions in each pallet's `laws.rs` and beside
the functions they relate.

`transaction` holds the test doubles of the order pallet's services.

`app/` is the runtime glue that Verus does not see: call origins, ledgers that
perform the returned effects, and one transaction per call.

Action-log signatures are checked with `sp_io::crypto::ed25519_verify`.
