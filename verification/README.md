# mars_contracts

The decision logic of the Mars protocol contracts (red bank money market, staking,
rewards collector, safety fund and red bank closure), written in Verus and proved
against its contracts.

Layout:

- `src/` — the verified library. Each contract operation is a function from the stored
  records and the values read from other contracts to the records to store, the
  messages to send and the events to emit. Fixed-point arithmetic goes through
  `cosmwasm_std` behind trusted wrappers in `src/decimal.rs`; the other calls out of
  the library (string conversions) have wrappers next to their callers.
  - `decimal`, `arith`: the 18-digit fixed-point decimal and arithmetic lemmas
  - `market`, `interest_rates`: market parameters, the kinked interest rate model,
    index accrual and scaled amounts
  - `bits`, `state`, `positions`, `health`, `accounts`, `liquidation`, `queries`:
    user records, positions, health factors and liquidation amounts
  - `admin`, `red_bank`: the red bank's configuration and its user operations
  - `staking`, `rewards_collector`, `safety_fund`, `closure`: the other contracts
- `tests/` — tests of the library on concrete values.
- `app/` — the contract entry points: storage, queries to other contracts,
  serialization and message dispatch around the library.
