# tray_icon

A macOS status-bar tray icon whose logic is verified with Verus.

- `src/model.rs`: the abstract state of a tray icon (`TrayIconModel`), its
  attributes, the platform operations (`PlatformOp`) and, as spec functions,
  what each change does to the state and which operations it asks for.
- `src/tray.rs`: `TrayIcon`, whose methods are proved to follow the model.
- `src/click.rs`: what a mouse-down on the icon does (open the menu or
  highlight the button).
- `src/laws.rs`: properties across operations (the status item and its click
  target exist together, set-then-read, hidden icons ask for nothing, hiding
  and showing again).
- `app/lib.rs`: the AppKit layer (cocoa, objc, core-graphics) that carries out
  the operations; it builds on macOS only.
