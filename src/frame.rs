use vstd::prelude::*;

verus! {

/// A colour with four 8-bit channels: red, green, blue and alpha.
#[derive(Clone, Copy, Debug, PartialEq, Eq, Structural)]
pub struct Color {
    pub r: u8,
    pub g: u8,
    pub b: u8,
    pub a: u8,
}

impl Color {
    /// Opaque green, the background of every frame.
    pub fn green() -> (c: Color)
        ensures
            c == (Color { r: 0, g: 255, b: 0, a: 255 }),
    {
        Color { r: 0, g: 255, b: 0, a: 255 }
    }

    /// Opaque red, the colour of the square.
    pub fn red() -> (c: Color)
        ensures
            c == (Color { r: 255, g: 0, b: 0, a: 255 }),
    {
        Color { r: 255, g: 0, b: 0, a: 255 }
    }
}

/// An axis-aligned square with its top-left corner at `(x, y)`.
#[derive(Clone, Copy, Debug, PartialEq, Eq, Structural)]
pub struct Square {
    pub x: i64,
    pub y: i64,
    pub size: u32,
}

/// The placement of a shape on screen, applied to a point in this order:
/// translate by `(offset_x, offset_y)`, rotate about the origin by
/// `rotation / TICKS_PER_SECOND` radians, translate by `(center_x, center_y)`.
#[derive(Clone, Copy, Debug, PartialEq, Eq, Structural)]
pub struct Transform {
    pub center_x: u32,
    pub center_y: u32,
    pub rotation: u64,
    pub offset_x: i64,
    pub offset_y: i64,
}

/// Everything a drawing backend needs for one frame: clear the viewport to
/// `background`, then fill `square`, placed by `transform`, with `foreground`.
#[derive(Clone, Copy, Debug, PartialEq, Eq, Structural)]
pub struct Frame {
    pub width: u32,
    pub height: u32,
    pub background: Color,
    pub foreground: Color,
    pub square: Square,
    pub transform: Transform,
}

/// The centre of a square.
pub open spec fn square_center(s: Square) -> (int, int) {
    (s.x + s.size / 2, s.y + s.size / 2)
}

/// Where a transform takes the point `p`, when the image is a lattice point
/// that integers can state: a rotation by zero leaves every point in place, and
/// any rotation leaves the origin (its pivot) in place. Other points give `None`.
pub open spec fn place_point(t: Transform, p: (int, int)) -> Option<(int, int)> {
    let q = (p.0 + t.offset_x, p.1 + t.offset_y);
    if t.rotation == 0 || q == (0int, 0int) {
        Some((q.0 + t.center_x, q.1 + t.center_y))
    } else {
        None
    }
}

} // verus!
