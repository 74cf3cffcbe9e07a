//! Axis-aligned rectangles of display cells.
use vstd::prelude::*;

verus! {

/// A rectangle on the display surface, given by its top-left corner and size.
#[derive(Debug, Clone, Copy, PartialEq, Eq, Structural)]
pub struct Rect {
    pub left: i32,
    pub top: i32,
    pub width: i32,
    pub height: i32,
}

impl Rect {
    /// The last column covered by the rectangle.
    pub open spec fn spec_right(&self) -> int {
        self.left + self.width - 1
    }

    /// The last row covered by the rectangle.
    pub open spec fn spec_bottom(&self) -> int {
        self.top + self.height - 1
    }

    pub fn right(&self) -> (r: i32)
        requires
            i32::MIN <= self.spec_right() <= i32::MAX,
        ensures
            r == self.spec_right(),
    {
        (self.left as i64 + self.width as i64 - 1) as i32
    }

    pub fn bottom(&self) -> (r: i32)
        requires
            i32::MIN <= self.spec_bottom() <= i32::MAX,
        ensures
            r == self.spec_bottom(),
    {
        (self.top as i64 + self.height as i64 - 1) as i32
    }

    /// The middle column; the width is halved rounding toward zero.
    pub fn center_x(&self) -> (r: i32)
        requires
            self.width >= 0,
            self.left + self.width / 2 <= i32::MAX,
        ensures
            r == self.left + self.width / 2,
    {
        self.left + self.width / 2
    }

    /// The middle row; the height is halved rounding toward zero.
    pub fn center_y(&self) -> (r: i32)
        requires
            self.height >= 0,
            self.top + self.height / 2 <= i32::MAX,
        ensures
            r == self.top + self.height / 2,
    {
        self.top + self.height / 2
    }
}

} // verus!
