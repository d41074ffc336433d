# space_convergence

Durable workspace admission and membership convergence, verified with Verus.

A device joins a workspace through a durable, message-based protocol between
the joining device (the joiner) and an existing member (the sponsor). Each
side keeps one admission record per attempt; every protocol step is a
transition from the saved record and an incoming message to the next record
and the message to send. The library states each transition as a function
over a mathematical model of the record and proves the executable code
against it, together with the properties that span transitions (idempotent
replays, one winner between cancel and commit, what a sponsor builds the
joiner accepts, and so on).

## Layout

- `src/` — the verified library.
  - `attempt`, `message`, `step`, `error`, `bytes`, `rejection`, `payload`:
    the record, message identifiers, transition outcomes and byte formats.
  - `sponsor*`, `joiner*`, `candidate*`, `relationships`, `frames`,
    `local_join`, `recovery`, `keys`: the admission protocol.
  - `discovery`, `runtime`, `group_delivery`: membership gossip scheduling,
    the runtime's command handling and group update delivery.
  - `laws`: proof functions for the properties that relate several
    functions.
- `tests/` — executable tests of the library.
- `app/` — the admission protocol entry points and the loops around the
  library's decisions (storage, transport, the gossip runtime), written
  against host traits that supply the membership core's history, event,
  credential and signature work as plain values; and the serde copies of
  the wire types. The decisions of candidate discovery (what a sponsor's
  seed does, what a failed attestation records) are verified in
  `discovery`; the candidate record's own state machine, which merges seeds
  and verified peers, belongs to the membership core and is not here.

Outside crates called from the library: `sha2` (message identifiers,
receipt digests), `rand` (fresh identities, from the operating system's
random source) and `ed25519-dalek` (resume
keys). `serde` and `postcard` are used in `app/` for the wire encoding.
