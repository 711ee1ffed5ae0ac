//! Waveform synthesis, screen-space mapping and grid layout for a virtual
//! oscilloscope.
//!
//! Every quantity is held in exact integer units: time in microseconds,
//! frequency in millihertz, voltages in millivolts (settings) or picovolts
//! (samples), zoom in thousandths and screen positions in micropixels.
mod arith;
pub mod grid;
pub mod params;
pub mod screen;
pub mod waveform;
