# esp32-bt-speaker

Firmware logic of a Bluetooth speaker with a spectrum display, verified with
Verus.

- `src/` decides and computes: decoding sessions, the DAC's format changes,
  microphone capture, the Bluetooth profiles, the console, the counters, the
  spectrum display's rings and LED frames. Every function states what it
  returns, and the laws that span functions are proved beside them.
- `app/` is the firmware around it: tasks, drivers, the Bluetooth host, the
  codec, and the floating-point signal path.
- `tests/` runs the library on concrete values.

What the proofs rest on without proving it is in `src/channel.rs` (bounded
channels of the standard library), `src/sample_ring.rs` and `src/led_ring.rs`
(rings of the `rtrb` crate).

With the external-codec A2DP sink enabled the firmware is the speaker; without
it, the spectrum display.
