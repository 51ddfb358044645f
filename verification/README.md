# guardrail

The policy layer of an agent payment vault on Solana, verified with Verus.

- `src/policy.rs`: the decisions (owner checks, policy validation, payment
  authorization, vault settlement, pause and resume), each with a model in
  spec functions and an exact contract.
- `src/instructions.rs`: the instructions as the runtime runs them, reading
  the clock, the rent and the agent's program-derived address.
- `src/runtime.rs`: the trusted calls into `anchor_lang`.
- `src/laws.rs`: properties across requests (approval iff all checks pass,
  refused payments change nothing, lamport conservation, daily limits,
  owner-only changes, pause/resume).
- `app/lib.rs`: the Anchor program around the library: account handling,
  lamport writes, the deposit transfer and the payment event.
