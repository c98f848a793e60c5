# autotext

The library behind Autotext, a GTK snippet manager that keeps categories of
text snippets in SQLite, verified with Verus.

- `src/paths.rs` — the data directory (`.autotext` in the home directory)
  and the two database files in it.
- `src/crypto.rs`, `src/cipher.rs`, `src/codec.rs` — password-based
  encryption of snippet text: BLAKE2b key derivation, AES-128-CBC through
  `cryptostream`/OpenSSL streams, standard Base64. `encrypt` states that its
  output decrypts back to its input.
- `src/queries.rs` — the SQL of every operation on the databases.
- `src/records.rs` — how query rows become the values shown, and what an edit
  in a list writes to.
- `src/text.rs` — name clean-up with `regex`, and leaked strings.
- `app/` — the GTK window and the SQLite and file I/O, which call the library.
