# commitlabs

The logic of the CommitLabs Soroban contracts as a verified library, with
the Soroban entry points around it.

- `src/` — the library, verified with Verus:
  - `validation`, `math`, `fee`, `time`: input guards, checked percentage
    arithmetic, fee schedules (basis points, percentages, tiers, compounding)
    and ledger-time helpers;
  - `ids`: record names such as `c_7` or `tr12`, and why they never collide;
  - `registry`, `keyed`: address sets, per-asset ledgers and keyed record
    lists;
  - `rate_limit`: a fixed-window limit on calls per caller and function,
    with exempt callers;
  - `commitment_interface`: the interface version and the error catalogue;
  - `commitment_core`: the commitment lifecycle (create, settle, early exit,
    value updates, allocation, fees, roles, rate limits, pause and emergency
    mode), with
    the value locked kept equal to what the commitments still hold;
  - `transformation`: risk tranches, collateral, secondary instruments and
    guarantees;
  - `time_lock`: delayed governance actions.

  Each contract is a state value whose operations decide and record; what
  they leave to the caller (token transfers, NFT calls, events) is returned
  in their results. Operations that read the ledger time have a variant
  taking the time as an argument (`*_at`), whose contract is exact.
- `app/` — the Soroban contracts: storage, authorization, token and NFT
  calls, events and logging around the library.
- `tests/` — tests of the library.
