# StellopayCore rules

The rules of the StellopayCore payroll contracts as a Verus library, and the
contracts around it.

- `src/` is the library. Each contract is a plain value (its storage), and each
  of its calls is a method with an exact contract: the state after the call and
  the answer are functions of the state before it, of the call's arguments and
  of what the host knows of the call (`src/env.rs`).
  - `multisig.rs`: signers approve operations.
  - `price_oracle.rs`: sources report exchange rates.
  - `rate_limiter.rs`: token buckets.
  - `rbac.rs`: roles.
  - `storage.rs`, `payroll.rs`, `milestones.rs`: the payroll contract.
  - `laws/`: what holds of each contract across calls.
- `app/` holds the contracts as the ledger's host runs them. They load what a
  call needs, ask the library, write back what changed, and then carry out the
  token transfers, events and calls that the library asks for.
- `tests/` runs the library.

The payroll contract is covered in part: who administers it, its links and its
storage, exchange rates, milestone agreements, and pausing and resuming any
agreement. Payroll and escrow agreements (creating, activating, claiming,
cancelling and disputing them), grace periods, emergency pauses, the arbiter, the
link to a multisig, currency conversion and audit entries are not covered. The
modules with the rules for these are not part of this project, and nothing else
says exactly enough what the calls do to state and prove it.

A call that fails leaves the library's state as it was. The one exception is the
count of stale reads of a price, which a failing read adds to. The ledger's host
discards whatever a failing call writes, so there that count does not last, and
stale reads do not halt a pair.
