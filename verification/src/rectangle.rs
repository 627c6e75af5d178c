//! An axis-aligned rectangle with exact area and containment queries.

use vstd::prelude::*;

verus! {

/// A rectangle described by its side lengths.
#[derive(Debug)]
pub struct Rectangle {
    pub width: u32,
    pub height: u32,
}

impl Rectangle {
    /// Builds a rectangle from the two side lengths.
    pub fn new(width: u32, height: u32) -> (r: Rectangle)
        ensures
            r.width == width,
            r.height == height,
    {
        Rectangle { width, height }
    }

    /// Builds a square with the given side length.
    pub fn square(size: u32) -> (r: Rectangle)
        ensures
            r.width == size,
            r.height == size,
    {
        Rectangle { width: size, height: size }
    }

    /// Area of the rectangle; the product must fit in a `u32`.
    pub fn area(&self) -> (a: u32)
        requires
            self.width * self.height <= u32::MAX,
        ensures
            a == self.width * self.height,
    {
        self.width * self.height
    }

    /// Doubles both side lengths in place.
    pub fn double_size(&mut self)
        requires
            2 * old(self).width <= u32::MAX,
            2 * old(self).height <= u32::MAX,
        ensures
            final(self).width == 2 * old(self).width,
            final(self).height == 2 * old(self).height,
    {
        self.width *= 2;
        self.height *= 2;
    }

    /// Consumes the rectangle, returning its area.
    pub fn consume(self) -> (a: u32)
        requires
            self.width * self.height <= u32::MAX,
        ensures
            a == self.width * self.height,
    {
        self.width * self.height
    }

    /// Whether `other` fits strictly inside `self` on both axes.
    pub fn can_hold(&self, other: &Rectangle) -> (b: bool)
        ensures
            b == (self.width > other.width && self.height > other.height),
    {
        self.width > other.width && self.height > other.height
    }

    /// Whether the two side lengths coincide.
    pub fn is_square(&self) -> (b: bool)
        ensures
            b == (self.width == self.height),
    {
        self.width == self.height
    }
}

} // verus!
