# xmip-core-authenticate-windows

Authenticate by Windows: a username and password through the host's logon
facility, refusing where none is reachable.

- `src/` is the verified library. `account` reads a presented name as an
  account, writes it out and gives its canonical form; `logon` holds the
  Win32 outcomes, the `Logon` facility trait, the `Unreachable` facility and
  what an in-process authority decides; `authenticator` holds the verifier:
  which claims it reads, and `Verification`, which takes a claim step by
  step to its verdict; `text` holds the character-level operations the
  others are stated over.
- The identify capability (user principal names), the authenticate
  capability (credential store, `Authenticator`) and the mechanism and
  verdict types are the estate's own crates. The library takes their
  answers as values: a `Verification` asks for each reading or comparison
  in a `Step` and is handed the `Answer`.
- `app/` is the glue to those crates: it makes their calls and runs a
  `Verification` to its end.
- `tests/` runs the library with stand-ins for those capabilities.
