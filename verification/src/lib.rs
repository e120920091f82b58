//! A digital clock for the terminal: large block digits stamped into a cell
//! buffer, and the pacing rules of the loop that redraws them.

pub mod app;
pub mod buffer;
pub mod canvas;
pub mod clock;
pub mod digits;
pub mod event;
pub mod frame;
pub mod geometry;
pub mod layout;
pub mod paint;
pub mod style;
pub mod time;
