# audit_app

The verified core of a desktop audit application: sign-in and the
password-protected identity vault, encrypted evidence blobs, client and
engagement records, the engagement dashboard roll-ups, cloning library
controls into an engagement, library bundle installation, matcher dispatch
and reporting, findings and evidence.

- `src/` — the library, written in Verus. Every function carries a contract
  and is proved against it. Calls into outside crates (argon2, aes-gcm,
  sha2, hex, serde_json, rand, uuid) sit behind small trusted wrappers whose
  contracts say what those crates document.
- `tests/` — tests of the library on concrete values.
- `app/` — ordinary Rust around the library: the SQLite store (rusqlite),
  the identity file, the OS keychain, blob files on disk, and the command
  handlers that read rows, call the library, and write what it decides.
