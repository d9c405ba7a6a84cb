# pulse

Verified anonymous polling. An employee proves to the Identity zone who they
are and gets a blind signature on a token whose contents that zone never
sees; the unblinded token then pays for one anonymous, encrypted response in
the Signal zone, which checks the signature, the token's scope and expiry,
and that the token was never spent before.

## Layout

- `src/` — the library, verified with Verus.
  - `newtypes`, `token`, `messages`: identifiers, the token payload and the
    wire messages; sensitive byte strings have redacted textual forms.
  - `blind_sig`, `aead`, `ledger`: blind RSA signatures, AES-256-GCM sealed
    boxes and the spent-token ledger, over the outside crypto crates.
  - `issuer`, `store`, `collector`: the Token Issuer (Identity zone) and the
    Response Collector with its store (Signal zone).
  - `server`: the request logic of both zones and their structured errors;
    `auth` and `cmk` are the pluggable authentication and key interfaces.
  - `client`, `tui`: the client side of the protocol and the terminal
    client's state machine.
  - `decimal`, `env`, `server_config`, `relay_config`: configuration from the
    environment.
  - `simulation`, `report`: simulated load and its percentile report.
- `tests/` — tests of the library.
- `app/` — the programs around the library: the HTTP server, the terminal
  client and the simulation (`pulse server|tui|simulate`).
