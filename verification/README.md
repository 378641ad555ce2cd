# deadman_switch

An on-chain inheritance vault ("deadman switch"): the owner deposits funds and
checks in periodically; once the check-in deadline and a grace window have
both passed, anyone may trigger a proportional payout to the beneficiaries.

- `src/` is the verified library (Verus). It decides every instruction:
  `state.rs` holds the switch and its timing predicates, `beneficiaries.rs`
  the validation of beneficiary lists, `payout.rs` the payout arithmetic,
  `instructions/` one module per instruction, and `laws.rs` the properties
  that span several instructions (the phase table, finality of a trigger,
  owner-only access, the check-in reset).
- `app/` is the Anchor program around it: account validation, clock and rent
  reads, and the lamport transfers that the library's decisions call for.
- `tests/` runs the library on concrete scenarios.
