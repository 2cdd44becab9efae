# blind_sig_demo

Blind Schnorr signatures over secp256k1 used to sign Nostr events: a client
disguises an event id, a server signs the disguised challenge with a one-time
nonce, and the client unblinds the signature and publishes the event.

Layout:

- `src/` — the verified library (Verus).
  - `hexcode` — lowercase hex encoding and hex decoding.
  - `secp` — scalars and points as plain bytes; the `secp256kfun` /
    `schnorr_fun` operations behind trusted items.
  - `keys` — even-y key pairs: the server key and one-time nonces.
  - `json`, `nostr` — the NIP-01 id commitment of an event, event ids,
    signed events.
  - `nevent` — NIP-19 `nevent` records and njump.me links.
  - `nonces` — the table of one-time nonces, with the proofs that a nonce
    is found by at most one signing request and that every row stays a
    valid even-y nonce pair.
  - `api` — the signing server's steps (hand out a nonce, look it up,
    delete it, sign with it; `redeem` runs them against the table) and
    signature verification.
  - `signer` — the session signer's request checks and polling decision.
  - `client` — the browser client's checked inputs.
- `tests/` — tests of the library on concrete values.
- `app/` — the Rocket server, the SQLite nonce table, the WASM client and
  relay broadcasting, around the library. Blinding, blind signing and
  unblinding come from `schnorr_fun::blind` (`Blinder`, `BlindSigner`,
  `blind_sign`, `unblind_signature`), which no published `schnorr_fun`
  release contains; `app/` names them as the protocol needs them, so it does
  not build against schnorr_fun 0.13.
