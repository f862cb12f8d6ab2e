# escrow_payments

The decision logic of two smart contracts, verified with Verus:

- an **escrow contract**: two-party escrows with release, refund, disputes,
  evidence, escalation and automatic resolution weighted by reputation;
  multi-party escrows paid out by shares; vesting escrows (linear or by
  milestones); and multi-signature administration by proposals;
- a **payment contract**: one-off payments with expiry, completion and
  (partial) refunds; payments whose funds an escrow holds; subscriptions
  with dunning (retries, suspension, resolution); and per-address rate limits.

Layout:

- `src/` — the verified library. Each contract's state is a plain value
  (`escrow::state::EscrowContract`, `payment::state::PaymentContract`); every
  operation takes the ledger time and the acting account as arguments, and
  records the events it publishes and the token transfers it asks for in the
  state. Accounts are numbers (`ledger::Address`). `escrow::laws` and
  `payment::laws` hold the properties proved across operations.
- `tests/` — tests of the library.
- `app/` — the contracts on the Soroban host: storage, authorization, the
  ledger clock, token transfers, calls between the contracts and events.
