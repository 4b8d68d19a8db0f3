# signal_protocol

The Signal Protocol core (X3DH key agreement and the Double Ratchet) as a Verus
library: the behaviour of every operation is stated as a contract and proved, and
the laws of a session between two parties are proved from those contracts.

- `src/primitives.rs` — X25519, HKDF-SHA-256, Ed25519, AES-256-GCM and the system
  random source, called through small trusted wrappers whose contracts name their
  results.
- `src/crypto.rs`, `src/keys.rs`, `src/x3dh.rs` — validation, Diffie-Hellman, key
  derivation, signatures, key generation and both sides of X3DH.
- `src/skipped_keys.rs` — the sorted store of skipped message keys and its map laws.
- `src/double_ratchet.rs` — session state, ratchet steps, skipping, encryption,
  decryption and cleanup.
- `src/session_laws.rs` — what two parties that start from one secret can read of
  each other's messages, in order or not, across ratchet steps.
- `src/gallery/` — the decisions of the step-by-step teaching walkthroughs.
- `app/lib.rs` — the WebAssembly bindings.
