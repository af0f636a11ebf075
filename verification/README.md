# leaseflow

Lease contracts for Soroban, with their rules verified by Verus.

- `src/` is the verified library. Each module holds the state of one
  contract (or a family of calculations) as plain Rust values, and every
  operation states in its contract what it returns, what it changes and
  which inputs it refuses:
  - `flow/`: the escrowed lease lifecycle (dunning, grace periods, deposit
    deductions, credit records, fiat-pegged rent), the lease state machine
    with its transition metrics, creation rate limits and iteration bounds;
  - `lease_contract`: NFT-backed leases, usage rights, late fees, deposits
    and receipts;
  - `rent_escalation`, `fractional_rent`, `wear_tear_precision`,
    `safe_math_128`, `enhanced_yield_generation`,
    `advanced_yield_integration`: rent, deposit and yield arithmetic;
  - `oracle_governance`, `sep12_identity`, `timelock_upgrade`,
    `rate_limit_admin`: governance modules;
  - `property_attributes`: the packed attribute word of a property.
  Operations that the contracts answer with events return the event's
  content; the ledger time and what outside contracts answer are passed in
  as arguments.
- The library's collections are std `Vec` and `HashMap` (keyed by integers
  where the contracts look entries up). Soroban's own `Map` and `Vec` live
  in the host behind an `Env` handle and hold only values that
  `#[contracttype]` makes convertible to host values; that attribute cannot
  stand on the library's types, so `app/` converts between the two at the
  storage boundary.
- `app/` holds the Soroban contracts around the library: they load the
  state from ledger storage, call the library, store the result and publish
  the events. It also holds the timing benchmarks, which use floating point.
- `tests/` holds the tests, run against the compiled library.

Verify with Verus from this directory (`src/lib.rs` is the crate root).
