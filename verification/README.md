# uda

UniDesktop API: one interface to the desktop on Linux and Windows, with the
logic written and proved in Verus.

The library decides; it performs no input or output of its own. What it covers:

| Module | What it states and proves |
|--------|---------------------------|
| `capability`, `error`, `notification`, `wakelock`, `wallpaper`, `appearance` | the common model: capability sets, errors, notifications, guards that release once, backend interfaces |
| `tray` | tray menus with stable row ids, icons with validated images, tooltips, and the stores that menus and callbacks share |
| `platform_linux` | theme detection, accent colours, the wallpaper fallback chain, notification and wake lock requests, the StatusNotifierItem and dbusmenu logic |
| `platform_windows` | registry reading, releases, toasts, execution states, wallpaper calls, command tables and the tray worker |
| `ffi` | status codes, the C boundary, handle registries for wake locks, icons and menus |
| `text`, `utf16` | the text operations the rest is built on |

Every executable function has a contract over a mathematical model; laws that
relate several functions stand beside them as proof functions.

## Layout

- `src/` is the verified library. What it takes from outside without proof is
  marked `external_body`, `assume_specification` or `uninterp` and documented in
  place: a few functions of the standard library, and the making and reading of
  D-Bus variants.
- `tests/` runs the library on concrete values.
- `app/` is ordinary Rust around the library: a diagnostic program, the session
  bus, the Win32 calls and the exported C functions. It performs the calls that
  the library plans and hands their answers back.

Callbacks are numbers to the library; `app/` keeps the closures behind them. A
row names its callback by a `TrayAction`, a slot of an `ActionStore`, so that
replacing a callback reaches every holder. A menu is named by a `MenuRef` into a `MenuStore`; before a menu is
laid out, `MenuStore::nests` tells whether it contains itself.
