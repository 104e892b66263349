# xime

The logic of the xime input method (a Rime-based input method for Wayland
with Wubi radical hints, an emoji/symbol panel, a tray icon, a settings
program, WebDAV backup and device pairing), written in Verus with its
behaviour stated as `requires`/`ensures` contracts and proved.

## Layout

- `src/` — the verified library.
  - `candidate`, `menu` — candidate paging and the menu/content panel geometry.
  - `daemon`, `engine_loop`, `im_state`, `wayland`, `keys` — the decisions of
    the input loop: which key goes to Rime or to the application, the
    Ctrl+Space switch, the orphan-release rule, the search panel, pointer
    clicks, focus changes, protocol state machines and hotkey parsing.
  - `schema_config`, `rime_config`, `yaml`, `schema_info`, `schema_list`,
    `settings`, `patch_laws` — reading and patching Rime configuration text,
    key-path lookup in YAML documents, schema discovery and listing, what the
    settings program writes.
  - `daemon_config`, `xime_config`, `theme`, `tray`, `smart_suggestion` —
    colors, radical tables, combining the system's and the user's settings,
    theme detection, the tray icon and its menu.
  - `predict`, `pairing`, `webdav`, `rime_context` — the token vocabulary,
    the pairing store and server decisions, WebDAV requests and replies,
    Rime context data.
  - `text`, `keyed` — text helpers and the map view of keyed lists.
- `tests/` — tests of the library on concrete values.
- `app/` — the I/O around the library: file access, serde forms, HTTP
  transfers, theme detection through the environment.

Verify with Verus on `src/lib.rs`; build and run the tests with Cargo.
