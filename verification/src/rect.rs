//! Coordinate rectangle for decoding a subset of an image.

use vstd::prelude::*;

verus! {

/// A pixel-coordinate rectangle: plain data with no invariants.  Negative
/// or inverted rectangles are passed through to the decoder, whose own
/// validation governs what happens with them.
#[derive(Debug, Eq, PartialEq, Structural, Clone, Copy)]
pub struct Rect {
    /// Horizontal offset of the left edge, in pixels.
    pub x: i32,
    /// Vertical offset of the top edge, in pixels.
    pub y: i32,
    /// Width, in pixels.
    pub width: i32,
    /// Height, in pixels.
    pub height: i32,
}

impl Rect {
    /// Create a rectangle with the given coordinates.
    pub fn new(x: i32, y: i32, width: i32, height: i32) -> (r: Rect)
        ensures
            r == (Rect { x, y, width, height }),
    {
        Rect { x, y, width, height }
    }

    /// Get the horizontal offset.
    pub fn get_x(&self) -> (r: i32)
        ensures
            r == self.x,
    {
        self.x
    }

    /// Get the vertical offset.
    pub fn get_y(&self) -> (r: i32)
        ensures
            r == self.y,
    {
        self.y
    }

    /// Get the width.
    pub fn get_width(&self) -> (r: i32)
        ensures
            r == self.width,
    {
        self.width
    }

    /// Get the height, in pixels.
    pub fn get_height(&self) -> (r: i32)
        ensures
            r == self.height,
    {
        self.height
    }
}

} // verus!
