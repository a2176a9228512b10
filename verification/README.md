# hamplard

The rules of the Hamplard course platform, as a Verus-verified library,
with the Soroban contract that runs them on chain.

- `src/` — the verified library. The whole platform state is one value
  (`state::HamplardContract`) with a mathematical view (`state::State`);
  every operation is a method on it whose `ensures` states the new state,
  the result and the token transfers it asks for, over spec functions of
  the same module. Accounts are numbers (`table::Addr`), identifiers are
  byte strings, and the current ledger sequence is an argument.
  - `table`: the keyed record table every collection is stored in.
  - `model`: records, error codes and their views.
  - `fees`, `pricing`: fee configuration, risk surcharges, the payment split.
  - `courses`, `enrollment`, `certificates`, `refunds`, `waitlist`: the
    course lifecycle, paid enrollment, completion and certificates, refunds
    and archiving, waitlists.
  - `admin`: pause, admin handover, treasury change, access lists, upgrade
    time-lock.
  - `queries`: read-only views.
  - `laws`: proof functions for properties that span several operations.
- `app/` — the Soroban contract: authorization, storage, events, token
  transfers and the mapping between `Address` and account numbers. It loads
  the state, calls the library, performs the transfers the library returns
  and saves the state.
- `tests/` — scenario tests of the library and tests of its laws on
  concrete values.
