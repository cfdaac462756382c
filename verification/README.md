# valkyrie_contracts

The rules of the Valkyrie governance and LP staking contracts, written in
Verus and proved against their contracts.

- `src/` — the verified library.
  - `math`, `errors`, `messages`, `keys`, `bytes`, `schedule`: fixed-point
    arithmetic, the contract errors, the responses the contracts send, storage
    keys and query ranges, and reward distribution schedules.
  - `lp_staking`: bonding liquidity tokens and the rewards that accrue to them.
  - `governance`: staking the governance token (`staking`), polls
    (`poll::executions`, and the admin-governed polls in `poll::contracts`),
    ticket rewards (`vp`), protocol settings (`valkyrie`) and the contract
    configuration (`common`).
  - The laws of the library are public proof functions named `law_*`, next
    to the operations they speak of (`poll::laws` for polls).
- `tests/` — the scenarios of the contracts, run against the library.
- `app/` — the CosmWasm side: storage, chain queries, JSON messages and the
  entry points that call the library.
