# server

The request logic of an end-to-end encrypted chat server, verified with Verus.

- `src/` — the verified library:
  - `common`: API errors, the HTTP status of each, the rewriting of bare
    404/500 pages, and the success body.
  - `auth`: the login session; sign-up, the SRP-6a handshake of RFC 5054
    (`hello`, `auth`; the client proof hashes in the user's name and salt),
    logout and state; laws of the session state machine. The handshake runs
    on `srp` 0.7 (`ServerG2048::<Sha256>`, whose `process_reply` is the
    RFC 5054 exchange).
  - `chat`: chat history rows, sending a text, the router that delivers a
    chat to its sender's and receiver's connections, and the websocket
    connection's state machine.
  - `user`: user lookups.
  - `utils::base64_field`: byte fields as Base64 text.
- `app/` — the actix-web server around the library: configuration, the
  PostgreSQL queries, the Redis-backed cookie session, JSON bodies, and the
  actors that carry out what the library's state machines decide.
- `tests/` — tests of the library, including a full SRP login against the
  `srp` crate's client.
