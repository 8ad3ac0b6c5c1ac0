//! Axis-aligned widget boxes in canvas pixels.
use vstd::prelude::*;

verus! {

/// A box given by its edges; `right` and `bottom` are exclusive extents.
#[derive(Debug, Clone, Copy, Default, PartialEq, Eq, Structural)]
pub struct Rect {
    pub left: i32,
    pub top: i32,
    pub right: i32,
    pub bottom: i32,
}

pub open spec fn fits_i32(x: int) -> bool {
    i32::MIN <= x <= i32::MAX
}

/// Half of `x`, rounded toward zero as integer division does.
pub open spec fn half(x: int) -> int {
    if x >= 0 { x / 2 } else { -((-x) / 2) }
}

impl Rect {
    pub open spec fn spec_width(self) -> int {
        self.right - self.left
    }

    pub open spec fn spec_height(self) -> int {
        self.bottom - self.top
    }

    /// Width and height both fit in an `i32`.
    pub open spec fn extents_fit(self) -> bool {
        fits_i32(self.spec_width()) && fits_i32(self.spec_height())
    }

    pub fn new(left: i32, top: i32, right: i32, bottom: i32) -> (r: Rect)
        ensures
            r == (Rect { left, top, right, bottom }),
    {
        Rect { left, top, right, bottom }
    }

    /// The box with top-left corner `(x, y)` and the given size.
    pub fn from(x: i32, y: i32, width: i32, height: i32) -> (r: Rect)
        requires
            fits_i32(x + width),
            fits_i32(y + height),
        ensures
            r == (Rect { left: x, top: y, right: (x + width) as i32, bottom: (y + height) as i32 }),
    {
        Rect { left: x, top: y, right: x + width, bottom: y + height }
    }

    pub fn width(&self) -> (w: i32)
        requires
            fits_i32(self.spec_width()),
        ensures
            w == self.spec_width(),
    {
        self.right - self.left
    }

    pub fn height(&self) -> (h: i32)
        requires
            fits_i32(self.spec_height()),
        ensures
            h == self.spec_height(),
    {
        self.bottom - self.top
    }

    /// Grows the box by `dx` on the left and right and by `dy` on the top and bottom.
    pub fn inflate(&mut self, dx: i32, dy: i32)
        requires
            fits_i32(old(self).left - dx),
            fits_i32(old(self).right + dx),
            fits_i32(old(self).top - dy),
            fits_i32(old(self).bottom + dy),
        ensures
            final(self).left == old(self).left - dx,
            final(self).right == old(self).right + dx,
            final(self).top == old(self).top - dy,
            final(self).bottom == old(self).bottom + dy,
    {
        self.left = self.left - dx;
        self.right = self.right + dx;
        self.top = self.top - dy;
        self.bottom = self.bottom + dy;
    }

    /// Shrinks the box by `dx` on the left and right and by `dy` on the top and bottom.
    pub fn deflate(&mut self, dx: i32, dy: i32)
        requires
            fits_i32(old(self).left + dx),
            fits_i32(old(self).right - dx),
            fits_i32(old(self).top + dy),
            fits_i32(old(self).bottom - dy),
        ensures
            final(self).left == old(self).left + dx,
            final(self).right == old(self).right - dx,
            final(self).top == old(self).top + dy,
            final(self).bottom == old(self).bottom - dy,
    {
        self.left = self.left + dx;
        self.right = self.right - dx;
        self.top = self.top + dy;
        self.bottom = self.bottom - dy;
    }

    /// Moves the box by `(dx, dy)`.
    pub fn offset(&mut self, dx: i32, dy: i32)
        requires
            fits_i32(old(self).left + dx),
            fits_i32(old(self).right + dx),
            fits_i32(old(self).top + dy),
            fits_i32(old(self).bottom + dy),
        ensures
            final(self).left == old(self).left + dx,
            final(self).right == old(self).right + dx,
            final(self).top == old(self).top + dy,
            final(self).bottom == old(self).bottom + dy,
    {
        self.left = self.left + dx;
        self.right = self.right + dx;
        self.top = self.top + dy;
        self.bottom = self.bottom + dy;
    }

    /// Whether the point lies in the box, edges included.
    pub fn contain(&self, x: i32, y: i32) -> (r: bool)
        ensures
            r == (self.left <= x <= self.right && self.top <= y <= self.bottom),
    {
        x >= self.left && x <= self.right && y >= self.top && y <= self.bottom
    }

    /// The centre point, halves rounded toward zero.
    pub fn center(&self) -> (c: (i32, i32))
        requires
            self.extents_fit(),
        ensures
            c.0 == self.left + half(self.spec_width()),
            c.1 == self.top + half(self.spec_height()),
    {
        (self.left + self.width() / 2, self.top + self.height() / 2)
    }

    /// Moves the box so that its centre is `(cx, cy)`, keeping half-extents.
    pub fn set_center(&mut self, center_x: i32, center_y: i32)
        requires
            old(self).extents_fit(),
            fits_i32(center_x - half(old(self).spec_width())),
            fits_i32(center_x + half(old(self).spec_width())),
            fits_i32(center_y - half(old(self).spec_height())),
            fits_i32(center_y + half(old(self).spec_height())),
        ensures
            final(self).left == center_x - half(old(self).spec_width()),
            final(self).right == center_x + half(old(self).spec_width()),
            final(self).top == center_y - half(old(self).spec_height()),
            final(self).bottom == center_y + half(old(self).spec_height()),
    {
        let width = self.width() / 2;
        let height = self.height() / 2;
        self.left = center_x - width;
        self.right = center_x + width;
        self.top = center_y - height;
        self.bottom = center_y + height;
    }

    /// Moves the top-left corner to `(left, top)`, keeping the size.
    pub fn set_position(&mut self, left: i32, top: i32)
        requires
            old(self).extents_fit(),
            fits_i32(left + old(self).spec_width()),
            fits_i32(top + old(self).spec_height()),
        ensures
            final(self).left == left,
            final(self).top == top,
            final(self).spec_width() == old(self).spec_width(),
            final(self).spec_height() == old(self).spec_height(),
    {
        let width = self.width();
        let height = self.height();
        self.left = left;
        self.right = left + width;
        self.top = top;
        self.bottom = top + height;
    }

    /// Gives the box the size `width x height` (each rounded down to even) around its centre.
    pub fn set_size(&mut self, width: i32, height: i32)
        requires
            fits_i32(half(old(self).left + old(self).right) - half(width as int)),
            fits_i32(half(old(self).left + old(self).right) + half(width as int)),
            fits_i32(half(old(self).top + old(self).bottom) - half(height as int)),
            fits_i32(half(old(self).top + old(self).bottom) + half(height as int)),
        ensures
            final(self).left == half(old(self).left + old(self).right) - half(width as int),
            final(self).right == half(old(self).left + old(self).right) + half(width as int),
            final(self).top == half(old(self).top + old(self).bottom) - half(height as int),
            final(self).bottom == half(old(self).top + old(self).bottom) + half(height as int),
    {
        let sum_x = self.left as i64 + self.right as i64;
        let sum_y = self.top as i64 + self.bottom as i64;
        let center_x = (sum_x / 2) as i32;
        let center_y = (sum_y / 2) as i32;
        self.left = center_x - width / 2;
        self.right = center_x + width / 2;
        self.top = center_y - height / 2;
        self.bottom = center_y + height / 2;
    }

    /// Keeps the top-left corner and sets the size.
    pub fn set_width_and_height(&mut self, width: i32, height: i32)
        requires
            fits_i32(old(self).left + width),
            fits_i32(old(self).top + height),
        ensures
            final(self).left == old(self).left,
            final(self).top == old(self).top,
            final(self).right == old(self).left + width,
            final(self).bottom == old(self).top + height,
    {
        self.right = self.left + width;
        self.bottom = self.top + height;
    }
}

} // verus!
