//! Core logic of a six-switch USB macro keypad: per-switch debouncing,
//! press/release bookkeeping, aggregation of the held keys into fixed-width
//! HID report payloads, and the two-mode (keyboard / media) gesture protocol.
//!
//! Everything here is pure computation over plain values.  Reading the input
//! lines, timing, and pushing reports onto the USB endpoints belong to the
//! surrounding firmware, which feeds raw samples and timestamps in and takes
//! rendered reports out.

pub mod button;
pub mod code_map;
pub mod constants;
pub mod debouncer;
pub mod hid_util;
pub mod key_config;
pub mod reports;
pub mod scan;
