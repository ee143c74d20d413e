//! A terminal "digital rain" animation library.
//!
//! The library holds the verified core of the effect: per-column stream
//! state, the frame-update and cell-placement logic, and the control-loop
//! state machine that handles pause, resume and quit. Terminal I/O (raw
//! mode, cursor movement, drawing) is left to the binary that drives it.

pub mod control;
pub mod render;
pub mod stream;
