# hitokage_core

The core of hitokage, a configurable status bar for Windows, as a Verus-verified library.

- `src/` holds the logic with its contracts and laws: CSS class lists (`css_class`), the
  properties every widget shares and the hooks that read and write them (`base`), the
  workspaces reported by the window manager and the row of buttons that follows them
  (`workspace`, `json`), bar placement (`geometry`), CPU usage classes (`cpu`), the `pad`
  template helper (`pad`), weather and battery icons (`weather`, `battery`), memory
  readings (`memory`), reactive strings (`reactive`), the clock timer (`clock`), the
  payloads that carry script functions and reactive values (`payload`), the walk
  through nested script tables (`lua_walk`), and where assets are found (`assets`).
  `index_set` and `lua_walk` hold the trusted declarations of `indexmap` and `rustc-hash`.
- `app/` is the plain Rust around it: configuration and widget props parsing, the script
  deserializer, template rendering, system readings and the clock.
- `tests/` runs the library on concrete values.
