# ndk_midi

Verified logic for the Android NDK MIDI API (`AMidiDevice`, `AMidiInputPort`,
`AMidiOutputPort`).

- `src/` (Verus): what the native functions' results mean — media statuses
  (`media_error`), device types (`device_type`), received messages (`opcode`) — and the
  state machine that releases a device from a thread that may not be attached to the
  Java VM (`release`). The NDK and JNI codes are read from `ndk-sys` and `jni-sys`
  (`ndk_codes`).
- `app/` (plain Rust): the device and port handles, which own native pointers, make the
  `unsafe` native calls and hand their results to the library.
- `tests/`: tests of the library on concrete values.
