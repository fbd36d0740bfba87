# ProtractorPlus

An on-screen protractor for Windows: a transparent, always-on-top window
with a vertex and two red points, the angle between them, and optional
overlays (bisector, helper point, North and course bearings, distances in
metres, a box path with segment lengths and bearings).

## Layout

- `src/` — the verified library (Verus):
  - `scan.rs` — whitespace tokens, decimal numbers, writing tokens back;
  - `settings.rs`, `box_state.rs` — the settings and box-path file formats,
    with round-trip laws;
  - `features.rs` — shown features, pins and locks, and the context-menu
    commands that toggle them;
  - `input.rs` — what a press of each mouse button, a turn of the wheel, a key
    or a drag does, given what lies under the cursor;
  - `box_path.rs`, `placement.rs` — editing the box path and placing its
    labels clear of one another;
  - `distance.rs` — the distance labels and the distance editor;
  - `menu.rs` — the context menu entries and their UTF-16 text;
  - `raster.rs` — glyph compositing, alpha blending, pixel formats;
  - `icon.rs` — the window icon.
- `app/` — the program around the library: windows, drawing, floating-point
  geometry, files and the Win32 calls.
- `tests/` — tests of the library.

The font (`comfortaa-variable.ttf`) and the splash picture
(`assets/splash_icon.rgba`) are read from beside the executable.
