# parsec_vdisplay

A menu bar application for macOS that makes a virtual display when a Parsec
client connects and removes it when the client disconnects.

- `src/` is the verified library (Verus): reading Parsec's log lines,
  planning and tracking the virtual display, the settings and their text
  forms, the menu bar menu, the command queue, the launch agent, and the
  application configuration. Every public function has a contract, and the
  properties that span functions are stated as proof functions named `law_*`.
- `app/` is the application around it: the window (Dioxus), the menu bar item
  (objc2), the CoreGraphics calls that make and release the display, file
  access and `launchctl`.
- `tests/` runs the library on concrete values.
