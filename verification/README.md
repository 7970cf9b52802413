# escrow

A milestone escrow between clients and freelancers, with its rules proved in Verus.

A client makes an agreement with a freelancer, funds its milestones with tokens of
one bound asset, and has them released one by one or in batches once the parties
that the agreement names have approved. Milestones can be refunded, agreements can
be cancelled or disputed, completed agreements are rated, and a protocol fee is
retained from every release. An admin sets the escrow up, sets the fee, and can
pause it.

## Layout

- `src/` is the verified library. Each entrypoint is a function of `Escrow` that
  reads and changes an `Env`: the settings, the records, and what the host has
  answered. Its contract names why a call is refused (`..._refusal`, in the order in
  which the reasons are given) and what an accepted call leaves behind
  (`..._effect`). A refused call changes nothing.
- `src/operation.rs` holds the calls as values, and `src/laws/` what holds of all of
  them: what every change keeps, how money moves, how ratings are counted, and how
  batches relate to single releases.
- `app/` is the escrow as a Soroban contract. It loads records into an `Env`, answers
  the authorizations and token probes that an entrypoint asks for, and once a call is
  accepted stores the records, carries out the transfers and publishes the events.
- `tests/` runs the library against a small host.

## Conventions

- Amounts are in stroops. Addresses are numbers that the host hands out, one for
  each address of an invocation. Texts are their bytes.
- Approvals and migrations in an `Env` are the live ones: the host drops what has
  expired.
- An entrypoint that answers `AuthRequired` or `ProbeRequired` asks its host a
  question; the host answers it in the `Env` and calls again.
