//! Input translation for a user interface that is rendered off screen and
//! shown as an image inside another one.
//!
//! Positions are fixed-point integers (`geometry`), events carry them
//! (`input`), and the embedded view turns the outer interface's input into
//! the input of the inner one, at a resolution that may change between
//! frames (`view`).

pub mod geometry;
pub mod input;
pub mod view;
