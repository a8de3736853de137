# contracts

A suite of on-ledger contracts (aid disbursement, governance, an NFT
marketplace, an oracle, payments and escrow, a contract registry, an
upgrade manager, a rebalancer) and the test kit used to exercise them,
written in Verus and verified against their contracts.

Each contract is a plain state machine: its state is a struct with a
mathematical view, every operation states in `ensures` exactly what it
returns and how the state changes, and the token movements it needs are
returned as `Transfer` actions for the host to carry out. What only the
host knows (the current ledger sequence or time, whether a cross-contract
call went through, what a migration hook answered) is passed in as an
argument. Accounts, contracts and assets are identified by integers.

Layout:

- `src/` — the verified library, one module per contract plus the shared
  parts (`auth`, `batch`, `bps`, `errors`, `payments`, `token`) and the
  test kit (`testkit`, `fuzzing`). Laws that span several operations are
  public proof functions named `lemma_*` in the module they concern.
- `tests/` — executable tests of the library.
- `app/` — console reports and the fuzzing runner, which print or use
  floating point and so stay outside the verified library.
