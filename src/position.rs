use vstd::prelude::*;

verus! {

/// Whether a mathematical integer can be held in an `i64`.
pub open spec fn fits_i64(v: int) -> bool {
    i64::MIN <= v <= i64::MAX
}

/// A 2D offset in whole pixels.
#[derive(Clone, Copy, Debug, PartialEq, Eq, Structural)]
pub struct Position {
    pub x: i64,
    pub y: i64,
}

impl Position {
    /// Whether the component-wise sum of `self` and `o` is representable.
    pub open spec fn can_add(&self, o: Position) -> bool {
        fits_i64(self.x + o.x) && fits_i64(self.y + o.y)
    }

    /// Whether the component-wise difference of `self` and `o` is representable.
    pub open spec fn can_sub(&self, o: Position) -> bool {
        fits_i64(self.x - o.x) && fits_i64(self.y - o.y)
    }

    /// The component-wise sum of `self` and `o`.
    pub open spec fn plus(&self, o: Position) -> Position {
        Position { x: (self.x + o.x) as i64, y: (self.y + o.y) as i64 }
    }

    /// The component-wise sum.
    pub fn add(&self, o: &Position) -> (r: Position)
        requires
            self.can_add(*o),
        ensures
            r == self.plus(*o),
    {
        Position { x: self.x + o.x, y: self.y + o.y }
    }

    /// Moves this position by `o`.
    pub fn add_assign(&mut self, o: &Position)
        requires
            old(self).can_add(*o),
        ensures
            *final(self) == old(self).plus(*o),
    {
        self.x = self.x + o.x;
        self.y = self.y + o.y;
    }

    /// Moves this position back by `o`.
    pub fn sub_assign(&mut self, o: &Position)
        requires
            old(self).can_sub(*o),
        ensures
            final(self).x == old(self).x - o.x,
            final(self).y == old(self).y - o.y,
    {
        self.x = self.x - o.x;
        self.y = self.y - o.y;
    }
}

impl Default for Position {
    fn default() -> (r: Position)
        ensures
            r.x == 0 && r.y == 0,
    {
        Position { x: 0, y: 0 }
    }
}

} // verus!
