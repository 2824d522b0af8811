# eucalyptus

The decision logic of the eucalyptus game editor, written in Verus and
proved against its contracts.

## Layout

- `src/` — the verified library, one module per concern:
  - `text` — string helpers (trimming, searching, decimal digits) with
    specifications over `Seq<char>`;
  - `editor`, `input`, `camera`, `signal`, `undo`, `loading` — the editor's
    modes, tabs and menus, keyboard handling, camera control, the pending
    signal state machine, undo tracking and world loading;
  - `properties` — the custom property grid of a model;
  - `console`, `repl` — the build-log console and the Kotlin REPL panel;
  - `gleam` — download addresses and the installation plan of the script
    toolchain, and unpacking of `.gz` downloads;
  - `project`, `spawn`, `tree`, `batch`, `stats` — project files and
    creation, pending spawns, tree views, render batching and the
    performance histories.
- `tests/` — tests of the library on concrete values.
- `app/` — the command line around the library: argument handling, the
  health check's probes, downloads and file system work.
