//! Verified core of a screen-mirroring client: a scaled window shows still
//! captures of a device's display, and pointer/keyboard interaction in the
//! window is translated back into device input commands (taps, timed swipes
//! and key events).

pub mod capture;
pub mod gesture;
pub mod keymap;
pub mod scale;
pub mod session;
