# pawpad

Gamepad input for games: finding controllers, naming them the way SDL's
controller database does, decoding what they report and mapping their
buttons and axes to a common gamepad layout.

- `src/` is the library, written and proved with Verus: device GUIDs and
  their checksum (`backend::guid`), HID report descriptor decoding
  (`backend::hid::report_descriptor`), per-model report decoding
  (`backend::hid::driver`), the evdev device checks (`backend::evdev`) and the
  mapping tables with their text forms (`mapping`).
- `tests/` runs the library on concrete inputs.
- `app/` is the runtime around it: hidapi and evdev device access, event ids
  and timestamps, floating-point axis values and the serde forms of the
  mapping types.
