# zanei_macos

Decision core of a macOS activity collector, verified with Verus, and the native
code around it.

- `src/` holds every rule that decides what a collector may read, keep, correlate
  or send. It is verified: each function states in its contract what it returns
  and changes, and public proof functions named `law_*` state what holds across
  functions. Native answers come in as plain values or through closures.
- `app/` talks to the frameworks: Accessibility, CoreGraphics event taps,
  `NSWorkspace`, AppleScript, Keychain, Text Input Sources. It hands answers to
  the library and carries out what the library decides.
- `tests/` runs the library on concrete scenarios.

## Modules

| Module | Decides |
| --- | --- |
| `text_capture` | whether text may be read, correlated with keystrokes and sent |
| `eventtap` | what becomes of keystrokes, scrolling, clicks and the clipboard |
| `ax` | what becomes of accessibility notifications and values |
| `focus_context`, `focused_field` | which application, window and field input belongs to |
| `workspace` | launches, activations and terminations of applications |
| `secure_input`, `input_source` | when text stays unread |
| `applescript`, `app_directory`, `permission`, `store_key` | how native replies are understood |
| `channel`, `clock`, `schema`, `text` | shared ground |

Secure input, an unknown field, an unreadable filter and a failed probe all count
as a reason not to read text.
