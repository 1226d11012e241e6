use vstd::prelude::*;

verus! {

/// The three solid, opaque colours of a frame.
#[derive(Clone, Copy, Debug, PartialEq, Eq, Structural)]
pub enum Color {
    Red,
    Green,
    Blue,
}

/// Full intensity of a colour channel.
pub const FULL: u8 = 255;

/// The channels of a colour, red, green, blue and alpha, with `FULL` for one.
pub open spec fn rgba_of(c: Color) -> (u8, u8, u8, u8) {
    match c {
        Color::Red => (FULL, 0u8, 0u8, FULL),
        Color::Green => (0u8, FULL, 0u8, FULL),
        Color::Blue => (0u8, 0u8, FULL, FULL),
    }
}

impl Color {
    /// The red, green, blue and alpha channels of this colour.
    pub fn rgba(&self) -> (r: (u8, u8, u8, u8))
        ensures
            r == rgba_of(*self),
    {
        match self {
            Color::Red => (FULL, 0, 0, FULL),
            Color::Green => (0, FULL, 0, FULL),
            Color::Blue => (0, 0, FULL, FULL),
        }
    }
}

/// One step of a transform stack, applied to the local frame of a shape.
///
/// Lengths are in milli-units, angles in nano-radians.
#[derive(Clone, Copy, Debug, PartialEq, Eq, Structural)]
pub enum Transform {
    Translate { x: i64, y: i64 },
    Rotate { angle: i64 },
}

/// One command of a frame, for a rasterizer to carry out in order.
#[derive(Debug, PartialEq, Eq)]
pub enum DrawCommand {
    /// Fill the whole frame with one colour.
    Clear { color: Color },
    /// Fill the square with corner at the origin and side `side`, seen
    /// through `transforms`, the first of which is applied outermost.
    FillSquare { color: Color, side: i64, transforms: Vec<Transform> },
}

/// Whether `c` fills a square of side `side` in `color` through exactly the
/// transforms `ts`.
pub open spec fn is_square(c: DrawCommand, color: Color, side: int, ts: Seq<Transform>) -> bool {
    match c {
        DrawCommand::FillSquare { color: k, side: s, transforms } => k == color && s == side
            && transforms@ == ts,
        DrawCommand::Clear { .. } => false,
    }
}

} // verus!
