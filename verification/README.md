# lumen

A self-hosted upload service (a ShareX uploader) whose uploads are sealed
with AES-256-GCM-SIV; the key and nonce go back to the uploader and are not
kept by the server.

- `src/` is the library, verified with Verus:
  - `encryption.rs`: the `Cipher` (key and nonce), sealing, opening and the
    base64 form of its key and nonce;
  - `digest.rs`: the SHA3-512 fingerprint of an upload;
  - `utils.rs`: random UUIDs and their text;
  - `password.rs`: Argon2 password hashes;
  - `storage.rs`: where each upload lives below the storage root;
  - `text.rs`: decimal and hexadecimal text, splitting text at separators;
  - `models.rs`, `reply.rs`: records and plain-text replies;
  - `routes/`: what each request handler decides: refusals, what to store,
    what to charge or refund, and what to answer.
- `app/` is the program around it: the actix-web server, the SQLite
  database (sqlx), the file system, JSON and the `.sxcu` document.
- `tests/` runs the library on concrete values.
