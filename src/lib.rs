//! Two squares orbiting a common centre: the angle state, how it advances
//! with elapsed time, the frame that describes what to draw, and the loading
//! of the bitmap read at start-up.

pub mod bitmap;
pub mod draw;
pub mod orbit;
