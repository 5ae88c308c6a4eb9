# Mouse speed switcher

A tray tool for Windows that gives each mouse its own pointer speed, wheel speed
and scroll mode. A rule belongs to a pair of vendor and product ids; choosing a
device puts its rule in force, pulling that device out returns to the global
settings.

- `src/` is the verified library: configuration and rules, the state machine
  behind plugging and switching, layout and hit tests of the three menus, what is
  drawn where, the commands, the mouse hook's decisions, and the text formats.
  Lengths are whole logical points; functions take what the system said and return
  what is to be written to it.
- `tests/` runs the library.
- `app/` is the program around it: windows, drawing, registry, configuration file,
  hooks. Without an argument the native menu runs; `popup` and `egui` run the
  other menus, `diag` and `probe` print what the tool sees.
