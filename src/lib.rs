//! Small console exercises as a verified library: number parsing of input
//! lines, a rectangle with an area, the decisions of a guessing game, and the
//! values computed by the variable-binding demonstrations.

pub mod number;
pub mod rectangle;
pub mod guessing;
pub mod basics;
