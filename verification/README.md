# stellar_send

Verified rules of a family of Soroban payment contracts: an escrow, a fee
collector, a wrap/unwrap token bridge, a deployment factory, and the payment
contract's batch payments, payment requests and subscriptions.

* `src/` — the rules, verified with Verus. Each function takes what a contract
  invocation loads (instance fields, the stored record it touches, the ledger
  time, the caller) and returns the next state and the token movements to make.
  Proof functions state the laws the contracts keep (settle-once lifecycles,
  the escrow grace window, fee locking on payment requests, execution caps,
  value conservation of fee splits and batches, wrap/unwrap round trips,
  initialize-once).
* `app/` — the Soroban contracts: storage, authorization, ledger time, token
  calls, deployment and events around the rules.
* `tests/` — scenarios run against the rules, with token balances simulated
  in the tests.
