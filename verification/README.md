# shroud

SHROUD protocol objects (batch opening, codeword embedding, opening
projection, oracle commitment, quotient hider), their canonical transcript
bindings, and the Plonky3 bridge checks, written in Verus.

Every public function carries a contract over spec functions and views, and
the crate-wide properties (payload accounting, degree-class preservation,
byte-faithful transcript replay, structural extraction of the pre-grind
event log, the `p3-symmetric` advisory gate) are stated as `law_*` proof
functions.

Layout:

- `src/` — the verified library.
  - `text.rs`, `bytes.rs`: verified rendering of numbers and little-endian
    encodings.
  - `security.rs`, `claim.rs`, `degree.rs`, `surface.rs`, `hiding.rs`,
    `transcript.rs`, `binding.rs`, `conformance.rs`: shared protocol types.
  - `batch_opening.rs`, `codeword_embedding.rs`, `opening_projection.rs`,
    `oracle_commitment.rs`, `quotient_hider.rs`, `adapter.rs`: the protocol
    objects and their backend adapter plans.
  - `challenger.rs`: the pinned Keccak-256 byte challenger of
    `p3-challenger`, behind a small trusted interface.
  - `recorder.rs`: the recording challenger, its byte tape and byte-faithful
    replay.
  - `live_extractor.rs`, `plonky3.rs`, `plonky3_bindings.rs`, `harness.rs`:
    the Plonky3 bridge.
- `tests/` — runtime tests against the real outside crates.
- `app/` — Plonky3 trait plumbing: the shared recorder handle, the generic
  recording challenger, the pinned typed challengers, and `Display` adapters.
