# halo2_verifier

The Halo2 (zkMove circuit) proof verifier of a Substrate runtime.

- `src/` is the verified library: the verification-key type and its declared
  encoded-size bound, the verifier's answers (`deserialize_vk`, `validate_vk`,
  `verify_proof`) given what decoding the key and checking the proof gave, the
  key hash (SHA2-256 of the key bytes, through `sp_io`), and the weights of the
  verifier's operations (with the RocksDB read/write costs of `frame_support`).
- `tests/` exercises the library on concrete values.
- `app/` is the runtime glue: SCALE-codec copies of the key types, runtime
  weight and hash types, and the calls into the KZG Halo2 proving system and
  the zkMove circuit that decode keys and check proofs.
