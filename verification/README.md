# clipboard_plus

The core of Clipboard+, a local-first Windows clipboard manager, written in Verus.
Verus proves the functions under `src/` against their contracts, except the calls
into outside crates and `std` gathered in `src/external.rs`: their contracts state
what those crates' sources show, and Verus believes them without proof.

## Layout

- `src/text.rs` — the character-level facts about `str` (trimming, whitespace,
  ASCII case, substring search, UTF-8 length) that the rules are stated over.
- `src/decimal.rs` — decimal text of `i64` values, both ways, with the round trip.
- `src/formats.rs` — the text formats those crates write: a JSON list of strings,
  a version 4 UUID, an RFC 3339 timestamp.
- `src/external.rs` — the calls into `url`, `sha2`, `serde_json`, `uuid`, `chrono`
  and `std` that Verus takes on trust, with their contracts.
- `src/content.rs` — content-type detection, the SHA-256 coalescing key and the
  built-in groups.
- `src/search.rs` — the FTS5 query built from what the user typed, and the SQL
  statement and parameters of a history listing.
- `src/database.rs` — the records of the history, the retention settings and how
  they are stored, and the rules that decide what is written.
- `src/monitor.rs` — the clipboard watcher as a state machine.
- `src/tray.rs`, `src/shortcuts.rs`, `src/commands.rs` — the tray menu, the palette
  layouts and the computing parts of the user-interface commands.
- `src/detector.rs` — the secret-looking-text heuristics.
- `tests/` — tests of the library on concrete values.
- `app/` — the Tauri application around the library: SQLite, the Win32 clipboard
  and window calls, the tray, the global shortcut and the commands.
