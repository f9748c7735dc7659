# delegator

The verified core of a staking program for Solana: guardians create stake
pools under a reward policy, users open stakes in a pool, stake tokens up to
the pool's cap and unstake them while a reward accrues with time.

- `src/` is the library, verified with Verus: the account data (`state`), the
  constraints between the accounts each instruction receives and what each
  instruction's handler does (`instructions`, `accounts`), each instruction as
  a whole (`delegator`), and the laws that relate the instructions (`laws`).
  Handlers return the token transfer they ask for instead of making it.
- `app/` is the on-chain program built with Anchor: it deserializes and
  creates accounts, reads the clock, converts between the chain's types and the
  library's, calls the library and performs the transfers.
- `tests/` runs the library on concrete accounts.
