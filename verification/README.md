# glazier

The logic of an operating system integration layer for GUI toolkits, verified with Verus: windows
and their ids, keyboards and hotkeys, mice, pens and touch, text input, menus and file dialogs, and
what the backends for Wayland, X11 and Windows decide about all of these.

- `src/` is the library. Every function states in its contract what it returns or changes; what
  holds of the library as a whole stands in proof functions whose names start with `law_`.
- `app/` talks to the desktop: it turns the events of the X server and of Wayland into the library's,
  carries out what the library decides, and computes with floating-point numbers. The library
  carries such numbers as their bits.
- `tests/` runs the library on concrete values.

What is taken on trust, each item with a comment on what is claimed of it: `memchr::memmem::find`
in `src/x11/pointer.rs`, and `String::push`, `String::pop` and `char::from_u32` of the standard
library in `src/strings.rs`. An application's text fields implement `text::InputHandler`, whose
promises the library relies on.
