//! State machine of a small animation: two nested squares spinning about a
//! shared center, whose rotation direction, position and color scheme respond
//! to keyboard input. The window, the draw calls and the floating-point angle
//! accumulators live outside; this crate holds the decisions they follow.

pub mod animator;
pub mod color;
pub mod laws;
