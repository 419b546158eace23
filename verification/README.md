# fade

Fade minimizes or closes windows whose process has been out of the foreground longer
than its rule allows. Rules come per app or per group of apps ("buckets"); an app's
own rule overrides its group's.

## Layout

- `src/` — the verified library (Verus):
  - `config.rs` — the configuration model, rule resolution, icons per app and group,
    defaults, and clamping of hand-edited values;
  - `edit.rs` — every edit a settings view can make to the configuration;
  - `overview.rs` — what a settings view shows: group cards, unassigned rules, the
    managed-app count, the active-process list;
  - `monitor.rs` — the idle-detection poll (which queries the window system and
    returns the minimize and close requests it decided on), foreground times, the
    activity snapshot and the action log;
  - `filter.rs` — which windows are system windows and never acted on;
  - `platform.rs` — decisions of the Win32 layer made on plain values (fullscreen
    geometry, file times, executable names, window descriptions);
  - `tray.rs` — tray events and the tray icon's pixels;
  - `icons.rs`, `icon_catalog.rs` — brand icons and the searchable glyph catalog;
  - `text.rs`, `find.rs` — string helpers and first-match search.
- `tests/` — tests of the library.
- `app/` — the program: configuration file I/O (TOML), auto-start registration, the
  Win32 window system and foreground hook, the tray icon, and the polling thread,
  which issues the minimize and close requests each poll returns. It has no settings
  window: settings are edited in `fade.toml` (and auto-start with `--auto-start=on|off`).
