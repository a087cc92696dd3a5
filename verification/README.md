# fastclip

The core of FastClip, a desktop clipboard-macro app, written in Verus. The
functions under `src/` are verified against their contracts, with two kinds
of exception: the small wrappers around outside crates and std (marked
`#[verifier::external_body]`), whose contracts are believed rather than
proved, and `now_unix_ms`, which reads the clock and promises nothing about
the reading.

## Layout

- `src/` — the verified library.
  - `commands/` — argument validation, the lock state the UI sees, the
    decisions behind enabling, disabling and changing the PIN, export and
    import, and copying a clip.
  - `crypto/` — the DEK, PIN handling, the Argon2id key derivation, the
    XChaCha20-Poly1305 wrap, and the key file with its attempt counter and
    back-off.
  - `storage/` — file classification, store paths, the schema version rules,
    startup recovery and the encrypt/decrypt conversion as step machines, the
    store's lock status, and the row-level rules for clips.
  - `export_file.rs` — the export format: rendering and a strict parse.
  - `tray.rs`, `settings.rs`, `colour.rs`, `redact.rs`, `error.rs` — the tray
    menu, the settings file, the palette, log redaction and the error type.
- `tests/` — tests run against the compiled library.
- `app/` — the Tauri shell: window, tray, IPC commands, SQLite, DPAPI and file
  I/O. It drives the library's step machines and holds no rules of its own.

Calls into outside crates (argon2, chacha20poly1305, subtle, zeroize, uuid,
dirs) go through those wrappers; each one's doc comment says which outside
function it calls and what its contract claims of it. Everything built on
them is proved against those claims.

Keys and PINs are not wiped on drop (Verus does not support `Drop`): each
has a `wipe` method, which the library calls where it discards a key and the
shell calls when a command's secrets go out of scope.
