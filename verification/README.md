# xdg-desktop-portal-agl

An xdg-desktop-portal backend for AGL (Automotive Grade Linux): the
Screenshot (`Screenshot`, `PickColor`) and Settings (`Read`, `ReadAll`)
portal interfaces, on top of the AGL compositor's capture protocols
(weston-output-capture, the legacy agl_screenshooter, and wlr-screencopy on
wlroots desktops).

## Layout

- `src/` — the library, verified with Verus. It holds the portal's data
  handling and the decisions of its loops, with their contracts:
  - `format` — pixel formats and the wl_shm / DRM FourCC codes they arrive as;
  - `buffer` — captured frames: row layout, per-pixel decoding to RGBA8,
    whole-frame conversion, PNG encoding (through the `png` crate);
  - `capture` — the three capture backends' decisions: buffer planning, the
    screencopy state machine, weston source negotiation and retries, the
    agl_screenshooter geometry fallback, and each turn of a bounded wait on
    the compositor (finish, time out, or poll; what a poll's result means);
  - `registry` — capture globals and backend precedence;
  - `output` — outputs, output selection, and how the output list follows
    hotplug and output events;
  - `shell` — surface roles under xdg-shell and the AGL shell;
  - `portal` — `user-dirs.dirs` parsing, settings namespace patterns, file
    names, the retries of a save under a taken name, the order in which
    pictures directories are tried, `file://` URIs, environment values,
    response codes;
  - `settings` — the appearance settings file and `Read` key resolution;
  - `text` — character-level helpers (trimming, prefixes, decimal numbers);
  - `error` — `CaptureError`, `ShellError`.
- `tests/` — tests of the library on concrete values.
- `app/` — the daemon: D-Bus interfaces (zbus), the Wayland connection and
  protocol traffic (wayland-client), shared memory, floating-point colour
  values. It performs what the library decides and feeds back what the
  compositor answers. It also holds the floating-point parsing of accent
  colours.

The weston and AGL protocol bindings in `app/wayland/protocols.rs` are
generated at build time from the protocols' XML descriptions, which are
expected under `protocols/`.
