//! HID report emulation and relay-session logic for forwarding captured input
//! to a host as a Bluetooth keyboard and mouse.
pub mod keymap;
pub mod hid;
pub mod report;
pub mod engine;
pub mod backoff;
pub mod session;
pub mod fingerprint;
pub mod gpu;
pub mod gatt;
