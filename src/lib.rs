//! Immutable drawing contexts that describe what to draw, with which
//! transform and color, and render themselves onto a pluggable back end.
//!
//! Each context is a small value; every operation on it returns a new
//! context that differs in one field. Drawing asks the back end what it
//! offers before it submits anything, and refuses a back end that lacks
//! what the drawing needs.
pub mod back_end;
pub mod geometry;
pub mod image_rectangle_color_context;
pub mod square_border_line_color_context;
