# rinertia

Momentum scrolling for Linux touchpads: a daemon that passively reads touchpad
events, keeps the page gliding after a two-finger flick (and, optionally, the
pointer after a one-finger flick), and injects the motion through a uinput
virtual device.

Layout:

- `src/` — the verified library (Verus). It holds the decisions of the daemon:
  - `touchpad` — the gesture listener state machine and its velocity sample rings;
  - `momentum` — what the momentum engine does on each message and each tick;
  - `config` — flags, configuration file, and how they are layered over defaults;
  - `interrupt` — which devices and events interrupt momentum;
  - `virtual_device` — the capabilities and event sequences of the output device;
  - `focused_app`, `natural_scroll` — building the queries to desktop tools and
    reading their answers;
  - `device_discovery` — which device is taken for the touchpad;
  - `text` — character-level text helpers proved against `str`-style specs;
  - `input_codes` — Linux input event codes.
  Floating-point values never appear there: the setting types are generic in
  their number type, and velocities are kept as exact integer samples.
- `app/` — the program around it: argument parsing, reading the configuration
  file, device I/O, threads, timing, and the floating-point arithmetic of the
  momentum curves.
- `tests/` — tests of the library.
