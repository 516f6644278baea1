//! Freehand strokes on a drawing board: the stroke lifecycle and the plan
//! that turns a stroke's sampled positions into a smooth piecewise curve.
pub mod board;
pub mod draw;
