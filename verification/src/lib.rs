//! Battery, lid and power-button logic for the Argon ONE UP laptop case:
//! decoding of the CW2217B fuel-gauge registers, AC debouncing, charge-state
//! classification, change detection for UPower signals, the UPower object
//! paths, and the activation and long-press state machines that drive the
//! hardware.
pub mod activation;
pub mod battery;
pub mod broadcast;
pub mod button;
pub mod dbus;
pub mod registers;
