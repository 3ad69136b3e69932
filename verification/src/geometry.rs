//! Plain geometric values: positions, displacements, colours, and the camera.

use vstd::prelude::*;

verus! {

/// A position on the plane, in world or screen space depending on context.
#[derive(Clone, Copy, PartialEq, Eq, Structural, Debug)]
pub struct Point {
    pub x: i64,
    pub y: i64,
}

/// A displacement between two positions.
#[derive(Clone, Copy, PartialEq, Eq, Structural, Debug)]
pub struct Vector {
    pub x: i64,
    pub y: i64,
}

/// An RGBA colour with 8-bit components.
#[derive(Clone, Copy, PartialEq, Eq, Structural, Debug)]
pub struct Color {
    pub r: u8,
    pub g: u8,
    pub b: u8,
    pub a: u8,
}

/// The viewing transform: a pan offset and a depth scalar.
///
/// A world coordinate is the screen coordinate plus the pan offset `(x, y)`.
/// The depth `z` is tracked but deliberately not applied as a geometric scale
/// factor; whether it should ever scale the drawing is an open question of
/// the design, so it stays inert here.
#[derive(Clone, Copy, PartialEq, Eq, Structural, Debug)]
pub struct Camera {
    pub x: i64,
    pub y: i64,
    pub z: i64,
}

impl Point {
    /// Translates a screen-space position into world space under `camera`.
    pub fn to_world(self, camera: Camera) -> (r: Point)
        requires
            i64::MIN <= self.x + camera.x <= i64::MAX,
            i64::MIN <= self.y + camera.y <= i64::MAX,
        ensures
            r.x == self.x + camera.x,
            r.y == self.y + camera.y,
    {
        Point { x: self.x + camera.x, y: self.y + camera.y }
    }
}

} // verus!
