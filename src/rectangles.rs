use vstd::prelude::*;

verus! {

/// A rectangle given by its width and height in pixels.
#[derive(Clone, Copy, Debug, PartialEq, Eq, Structural)]
pub struct Rectangle {
    pub width: u32,
    pub height: u32,
}

/// The area of a `width` by `height` rectangle.
pub open spec fn area_of(width: int, height: int) -> int {
    width * height
}

/// Returns the area of a rectangle given as two numbers.
pub fn area_v1(width: u32, height: u32) -> (r: u32)
    requires
        area_of(width as int, height as int) <= u32::MAX,
    ensures
        r == area_of(width as int, height as int),
{
    width * height
}

/// Returns the area of a rectangle given as a `(width, height)` pair.
pub fn area_v2_tuple(dimensions: (u32, u32)) -> (r: u32)
    requires
        area_of(dimensions.0 as int, dimensions.1 as int) <= u32::MAX,
    ensures
        r == area_of(dimensions.0 as int, dimensions.1 as int),
{
    dimensions.0 * dimensions.1
}

/// Returns the area of a borrowed rectangle.
pub fn area_v3_struct(rectangle: &Rectangle) -> (r: u32)
    requires
        area_of(rectangle.width as int, rectangle.height as int) <= u32::MAX,
    ensures
        r == area_of(rectangle.width as int, rectangle.height as int),
{
    proof {
        assert(rectangle.height * rectangle.width == rectangle.width * rectangle.height)
            by (nonlinear_arith);
    }
    rectangle.height * rectangle.width
}

impl Rectangle {
    /// The area of this rectangle.
    pub open spec fn spec_area(&self) -> int {
        area_of(self.width as int, self.height as int)
    }

    /// Returns the area of this rectangle.
    pub fn area(&self) -> (r: u32)
        requires
            self.spec_area() <= u32::MAX,
        ensures
            r == self.spec_area(),
    {
        self.width * self.height
    }

    /// Grows the rectangle by one pixel in each direction.
    pub fn increase(&mut self)
        requires
            old(self).width < u32::MAX,
            old(self).height < u32::MAX,
        ensures
            final(self).width == old(self).width + 1,
            final(self).height == old(self).height + 1,
    {
        self.width = self.width + 1;
        self.height = self.height + 1;
    }

    /// Tells whether the rectangle has a nonzero width.
    pub fn width(&self) -> (r: bool)
        ensures
            r == (self.width > 0),
    {
        self.width > 0
    }

    /// Tells whether `other_rect` fits strictly inside this rectangle, being
    /// narrower and lower.
    pub fn can_hold(&self, other_rect: &Rectangle) -> (r: bool)
        ensures
            r == (self.width > other_rect.width && self.height > other_rect.height),
    {
        self.width > other_rect.width && self.height > other_rect.height
    }

    /// Returns a square whose sides are `size` pixels long.
    pub fn square(size: u32) -> (r: Rectangle)
        ensures
            r.width == size,
            r.height == size,
    {
        Rectangle { width: size, height: size }
    }
}

} // verus!
