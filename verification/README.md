# GoldbergDrop

Sets a game up for the Goldberg Steamworks emulator (App ID lookup, DLCs,
achievements, `steam_api(64).dll` swap), supports GreenLuma (install check,
AppList, CSF packs, Steam detection) and downloads Steam Workshop items
through GGNetwork or SteamCMD.

## Layout

- `src/` — the library, verified with Verus. Every parser, text format and
  decision carries a contract over a mathematical model (`Seq`, `Map`,
  views of the records), and the properties that span several calls are
  stated as proof functions named `law_*`.
  - `session.rs` is the window's state machine: a dropped executable,
    the store search, the choice of a match, the setup, and the workshop
    queue with its SteamCMD retry. Each step returns the work to start as
    `Action`s; the results come back as `WorkerMsg`s.
  - `resolver.rs` orders the name lookups of queued workshop items:
    GGNetwork first, then `GetPublishedFileDetails` in batches, then the
    item's Steam page, remembering store names of games by App ID.
  - `text.rs`, `unicode.rs`, `pattern.rs`, `scan.rs` are the text toolkit the
    parsers are built from.
  - The other modules follow the features: `goldberg`, `steam`,
    `emulator`, `greenluma`, `applist`, `archive`, `workshop`, `steamcmd`,
    `queue`, `games`, `settings`, `sendto`, `autostart`, `tray`,
    `single_instance`, `logging`.
- `app/` — a command-line front end: it performs the file, process and
  network work the library asks for (HTTP, `7z`, SteamCMD, the registry).
- `tests/` — tests of the library on concrete values.

SHA-256 comes from the `sha2` crate; the library states what it relies on
from it, and from `str::to_lowercase`, in the contracts of the few functions
that call them.
