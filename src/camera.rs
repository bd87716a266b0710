use vstd::prelude::*;

verus! {

/// Half of a width, rounded toward zero as integer division does.
pub open spec fn half_width(w: int) -> int {
    if w >= 0 {
        w / 2
    } else {
        -((-w) / 2)
    }
}

/// The viewport: the world column it is centred on and its size in cells.
#[derive(Debug, Copy, Clone)]
pub struct Camera {
    pub x: i32,
    pub y: i32,
    pub width: i32,
    pub height: i32,
}

impl Camera {
    /// Leftmost visible world column.
    pub open spec fn left_bound(&self) -> int {
        self.x - half_width(self.width as int)
    }

    /// Rightmost visible world column.
    pub open spec fn right_bound(&self) -> int {
        self.x + half_width(self.width as int)
    }

    /// Creates a camera centred on `(x, y)` with a viewport of `width` by `height` cells.
    pub fn new(x: i32, y: i32, width: i32, height: i32) -> (r: Self)
        ensures
            r.x == x,
            r.y == y,
            r.width == width,
            r.height == height,
    {
        Camera { x, y, width, height }
    }

    /// Scrolls the camera one column east.
    pub fn update(&mut self)
        requires
            old(self).x < i32::MAX,
        ensures
            final(self).x == old(self).x + 1,
            final(self).y == old(self).y,
            final(self).width == old(self).width,
            final(self).height == old(self).height,
    {
        self.x = self.x + 1;
    }

    /// Leftmost visible world column: `x - width / 2`.
    pub fn left(&self) -> (r: i32)
        requires
            i32::MIN <= self.left_bound() <= i32::MAX,
        ensures
            r == self.left_bound(),
    {
        self.x - self.width / 2
    }

    /// Rightmost visible world column: `x + width / 2`.
    pub fn right(&self) -> (r: i32)
        requires
            i32::MIN <= self.right_bound() <= i32::MAX,
        ensures
            r == self.right_bound(),
    {
        self.x + self.width / 2
    }
}

} // verus!
