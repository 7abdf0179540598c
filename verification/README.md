# drand_bench

Tools behind a benchmark of drand signature verification on the EVM, as a
Verus-verified library.

- `field`: elements of the BLS12-381 base field Fq (canonical limbs), with
  the field operations delegated to arkworks behind specified wrappers.
- `field_lemmas`: congruence modulo p and the algebra used by the proofs.
- `swu`: RFC 9380's simplified SWU map onto the curve E' isogenous to G1,
  `sqrt_ratio` and `sgn0`. The map is proved defined at every input, to land
  on E' with a nonzero y that has the sign of its input, and to send `-u` to
  the mirror image of the point of `u`.
- `nonresidue`, `euler`: Z = 11 is a non-square in Fq. `nonresidue` checks
  `11^((p-1)/2) = -1` by repeated squaring; `euler` turns that into "of
  `q` and `Z q`, one is a square".
- `cubic`, `cubic_certificate`: the cubic of E' has no root in Fq, so no
  point of E' has `y = 0`.
- `isogeny`: the 11-isogeny from E' to G1 (Horner evaluation, batch
  inversion), proved to map points of E' onto `y^2 = x^3 + 4` wherever its
  denominator is invertible.
- `horner`, `isogeny_certificate`: the polynomial identities behind that
  law (`x_den = l^2`, `y_den = l^3`, `g y_num^2 = x_num^3 + 4 l^6`), checked
  coefficient by coefficient along Horner's rule.
- `hash_to_curve`: hashing messages to G1 (BLS12381G1_XMD:SHA-256_SSWU_RO_).
- `gas`: calldata and execution gas of a verification call.
- `drand`: drand rounds, their URLs and hex-encoded signatures.
- `report`: the rows of the benchmark reports.

`app/main.rs` fetches drand signatures over HTTP into binary files.
