# aurelia_tui

A terminal browser for a Steam library, driven by the `aurelia` command-line
launcher: browse, filter and sort the library, install, update, verify and
launch games, and reach the launcher's other commands (DLC, branches, Proton,
cloud saves, Workshop, market, friends and chat) from overlays.

## Layout

- `src/` is the library, verified with Verus. It holds the browse model, the
  key bindings and the decisions taken on the launcher's answers:
  - `browse` (the list, its filters, sort and selection, installs and the
    actions menu), `overlays`, `social` (friends and chat), `market`,
    `workshop`, `tools` (versions, per-game settings, collections, runtime
    plugins), `session` (sign-in pages and the session state machine),
    `keys` (which layer of the page takes a key, and what each key asks for);
  - `ui` (layout of the list rows, the detail pane, the friends panel, the
    conversation and the help), `text`, `order`, `nav`;
  - `aurelia` (the launcher's replies as data, the command lines, and how a
    reply or a sign-in result is judged), `json` (the top-level fields of a
    JSON reply), `config`, `game`, `artwork`, `error`.
  Calls into `serde_json`, `fuzzy-matcher`, `image` and `qrcode` go through
  small trusted wrappers whose contracts are stated next to them.
- `app/` is the program around it: the terminal, the event loop, carrying
  out the commands the key bindings give, the `aurelia` processes, reading
  replies into values, files and downloads.
- `tests/` exercises the library from outside.
