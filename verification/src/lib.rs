//! Scroll and selection control for a ranked table that is shown through a
//! viewport smaller than the table itself.
//!
//! - `model`: the controller as a mathematical state machine.
//! - `laws`: what holds of that machine as a whole.
//! - `app`: the executable controller, which refines the model.
//! - `input`: from key presses to operations of the controller.
//! - `frame`: what a frame shows of the table in a terminal of a given size.

pub mod app;
pub mod frame;
pub mod input;
pub mod laws;
pub mod model;
