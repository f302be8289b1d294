# argon-one-up-daemon

Power-management daemon for the Argon ONE UP laptop case (Raspberry Pi):
it reads the CellWise CW2217B fuel gauge over I2C, watches the lid and the
power button on GPIO, and serves a UPower-compatible battery on the D-Bus
system bus.

Layout:

* `src/` — the verified library (Verus):
  * `registers.rs` — register map and byte decoding;
  * `battery.rs` — one gauge sample to a battery state, with the AC debounce window;
  * `broadcast.rs` — when a new state deserves UPower change signals;
  * `activation.rs` — the gauge's wake-up sequence as a state machine;
  * `button.rs` — long-press detection on the power button;
  * `dbus.rs` — the UPower object paths, checked against the D-Bus grammar.
* `app/` — the daemon itself: I2C/GPIO access, the D-Bus interfaces, the
  loops that perform what the state machines ask for, and the conversion of
  gauge units to floating-point physical units.
* `tests/` — tests of the library.
