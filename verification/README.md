# wraps

Verified core of the WRAPS address-book rotation library of the Hiero TSS
stack, written in Verus.

- `src/field.rs`: elements of the BN254 scalar field and of the Baby-JubJub
  scalar field, held as little-endian bytes; arithmetic through `ark-ff`.
- `src/curve.rs`: Baby-JubJub points, which always satisfy the curve
  equation; group operations through `ark-ec` / `ark-ed-on-bn254`.
- `src/pok.rs`: Schnorr proofs of knowledge with a Fiat-Shamir challenge.
- `src/keys.rs`: the seed expansion that key generation uses.
- `src/addressbook.rs`: address-book checks, padding, hash preimage and the
  aggregation of signers' keys and weights.
- `src/protocol.rs`: the `WRAPS` operations: signing-protocol request checks,
  signature acceptance by weight, rotation messages, the step inputs of the
  rotation circuit and the verdict on a compressed proof.
- `app/`: unverified glue (error display, Poseidon hashing with the folding
  scheme's parameters).

Not in this crate: the threshold Schnorr rounds, Schnorr verification and
secret-key derivation (they live in modules that are
available nowhere here), the hash-to-curve derivation of the sentinel key (its
curve configuration is likewise unavailable), and Poseidon hashing, Nova
folding and decider proofs (they come from the `folding-schemes` crate, which
the registry does not offer). The verified functions take the sentinel key,
the padding party and the hashes as arguments instead.
