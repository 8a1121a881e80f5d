//! State and arithmetic behind a small immediate-mode GUI demo: a click
//! counter, a color readout, a grid of generated box colors, and a rolling
//! frame-rate estimate.

pub mod demo;
pub mod frame_history;
pub mod palette;
