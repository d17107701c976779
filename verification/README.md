# niri_macos

The platform-neutral core of a macOS backend for a Wayland compositor,
written in Verus and verified against its contracts.

`src/` is the verified library:

- `keymap` — macOS virtual key codes and mouse buttons to Linux evdev codes.
- `modifiers` — `NSEvent` modifier flags to modifier state.
- `gesture` — `NSEventPhase` values to gesture phases.
- `events` — input events as macOS reports them (floating-point values are
  carried as their IEEE-754 bit patterns).
- `input`, `input_adapter` — the input handler's event queue, and conversion
  of events into evdev-numbered key, button, scroll and gesture events.
- `event_source` — the queue behind the event-loop wake-up source.
- `frame_timer` — frame pacing.
- `display` — display modes (sorting and de-duplication), display
  information from what the platform reports, and the table of known
  displays with the modes listed for each.
- `window`, `render` — window and renderer state.
- `ipc` — the description of the backend's output reported to IPC clients.
- `output` — the compositor output that shows the window: its name,
  physical properties and current and preferred modes.
- `backend` — the backend's own state: window size, IPC output, focus,
  input queue, frame pacing, and the components it owns.
- `signals` — the signals on which the compositor shuts down.

`app/` holds what stays outside: the monotonic clock, the wake-up pipe and its
calloop event source, signal handling through libc and calloop, the
floating-point conversions and comparisons (display bounds and the Retina
test among them), the smithay output built from the library's output model,
and the smithay input-backend trait implementations.
