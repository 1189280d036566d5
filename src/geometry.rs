use vstd::prelude::*;

verus! {

/// An axis-aligned rectangle in whole layout pixels.
#[derive(Clone, Copy, Debug, PartialEq, Eq, Structural)]
pub struct Rect {
    pub origin_x: i32,
    pub origin_y: i32,
    pub size_x: i32,
    pub size_y: i32,
}

impl Rect {
    pub fn new(origin_x: i32, origin_y: i32, size_x: i32, size_y: i32) -> (r: Rect)
        ensures
            r == (Rect { origin_x, origin_y, size_x, size_y }),
    {
        Rect { origin_x, origin_y, size_x, size_y }
    }
}

/// A viewport or content size in whole pixels.
#[derive(Clone, Copy, Debug, PartialEq, Eq, Structural)]
pub struct Size {
    pub width: i32,
    pub height: i32,
}

/// The rectangle at the origin that covers a viewport of the given size.
pub open spec fn bounds_of(size: Size) -> Rect {
    Rect { origin_x: 0, origin_y: 0, size_x: size.width, size_y: size.height }
}

impl Size {
    pub fn new(width: i32, height: i32) -> (r: Size)
        ensures
            r == (Size { width, height }),
    {
        Size { width, height }
    }

    /// The rectangle at the origin that this size covers.
    pub fn bounds(&self) -> (r: Rect)
        ensures
            r == bounds_of(*self),
    {
        Rect { origin_x: 0, origin_y: 0, size_x: self.width, size_y: self.height }
    }
}

/// An RGBA color; each channel runs from 0 (none) to 255 (full).
#[derive(Clone, Copy, Debug, PartialEq, Eq, Structural)]
pub struct ColorU {
    pub r: u8,
    pub g: u8,
    pub b: u8,
    pub a: u8,
}

impl ColorU {
    pub fn new(r: u8, g: u8, b: u8, a: u8) -> (c: ColorU)
        ensures
            c == (ColorU { r, g, b, a }),
    {
        ColorU { r, g, b, a }
    }
}

/// Opaque green, the color that a drawable rectangle fills with.
pub open spec fn green() -> ColorU {
    ColorU { r: 0, g: 255, b: 0, a: 255 }
}

/// A 4x4 transform matrix in row-major order, with integer entries.
#[derive(Clone, Copy, Debug, PartialEq, Eq)]
pub struct Matrix4 {
    pub m: [i32; 16],
}

/// Whether `t` is the identity transform.
pub open spec fn is_identity(t: Matrix4) -> bool {
    t.m@ == seq![1i32, 0, 0, 0, 0, 1, 0, 0, 0, 0, 1, 0, 0, 0, 0, 1]
}

impl Matrix4 {
    pub fn identity() -> (r: Matrix4)
        ensures
            is_identity(r),
    {
        Matrix4 { m: [1, 0, 0, 0, 0, 1, 0, 0, 0, 0, 1, 0, 0, 0, 0, 1] }
    }
}

/// The region that a display item is clipped to.
#[derive(Clone, Copy, Debug, PartialEq, Eq, Structural)]
pub struct ClipRegion {
    pub main: Rect,
}

impl ClipRegion {
    /// A clip region made of one rectangle.
    pub fn simple(rect: &Rect) -> (r: ClipRegion)
        ensures
            r.main == *rect,
    {
        ClipRegion { main: *rect }
    }
}

} // verus!
