//! Small plain geometry types.

use vstd::prelude::*;

verus! {

/// A half-open range of values, from `start` (included) to `end` (excluded).
#[derive(Debug, Copy, Clone, Hash, PartialEq, Eq, Default, Structural)]
pub struct Range<T> {
    pub start: T,
    pub end: T,
}

/// A two-dimensional vector.
#[derive(Debug, Copy, Clone, Hash, PartialEq, Eq, Default, Structural)]
pub struct Vec2<T> {
    pub x: T,
    pub y: T,
}

/// A three-dimensional vector.
#[derive(Debug, Copy, Clone, Hash, PartialEq, Eq, Default, Structural)]
pub struct Vec3<T> {
    pub x: T,
    pub y: T,
    pub z: T,
}

/// A two-dimensional extent (width and height).
#[derive(Debug, Copy, Clone, Hash, PartialEq, Eq, Default, Structural)]
pub struct Extent2<T> {
    pub w: T,
    pub h: T,
}

/// A rectangle: the position of its top-left corner and its extent.
#[derive(Debug, Copy, Clone, Hash, PartialEq, Eq, Default, Structural)]
pub struct Rect<P, E> {
    pub x: P,
    pub y: P,
    pub w: E,
    pub h: E,
}

/// A color with red, green, blue and alpha channels.
#[derive(Debug, Copy, Clone, Hash, PartialEq, Eq, Default, Structural)]
pub struct Rgba<T> {
    pub r: T,
    pub g: T,
    pub b: T,
    pub a: T,
}

} // verus!
