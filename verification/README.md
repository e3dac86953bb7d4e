# rustls_libcrux_provider

A cryptography provider for rustls built on libcrux, with its logic specified and
proved in Verus.

- `src/` is the verified library: TLS 1.3 and TLS 1.2 record protection with
  ChaCha20-Poly1305, X25519, ML-KEM-768 and X25519MLKEM768 key exchange, Ed25519 and
  ECDSA P-256 signing and verification (with the DER form of ECDSA signatures),
  SHA-256, HMAC and HKDF, PKCS#8 key loading, HPKE (single-shot and with sender and recipient contexts), and the decisions of
  the command-line tools (argument handling, key selection, the key identity
  document). The calls into libcrux, hpke-rs, `der`, `pkcs8`, `sec1` and rustls are
  made through a few trusted functions whose contracts say what those crates do.
- `app/` holds what the TLS stack and the operating system see: the rustls trait
  implementations that hand the work to the library, and the tools' `main` functions.
- `tests/` exercises the library on known vectors and round trips.
