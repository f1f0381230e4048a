use vstd::prelude::*;

verus! {

/// Block position on the playfield. `(0, 0)` is the bottom-left corner;
/// `y` increases upward.
#[derive(Debug, Copy, Clone, PartialEq, Eq, Structural, Hash)]
pub struct Pos {
    pub x: i8,
    pub y: i8,
}

/// Offset from a position.
#[derive(Debug, Copy, Clone, PartialEq, Eq, Structural, Hash)]
pub struct Offset {
    pub dx: i8,
    pub dy: i8,
}

impl Pos {
    pub fn new(x: i8, y: i8) -> (r: Pos)
        ensures
            r == (Pos { x, y }),
    {
        Pos { x, y }
    }

    /// Translates this position by an offset, when the result stays in the
    /// `i8` range; `None` otherwise.
    pub fn checked_add(self, rhs: Offset) -> (r: Option<Pos>)
        ensures
            r is Some <==> i8::MIN <= self.x + rhs.dx <= i8::MAX && i8::MIN <= self.y + rhs.dy
                <= i8::MAX,
            r matches Some(p) ==> p.x == self.x + rhs.dx && p.y == self.y + rhs.dy,
    {
        let x = self.x as i16 + rhs.dx as i16;
        let y = self.y as i16 + rhs.dy as i16;
        if -128 <= x && x <= 127 && -128 <= y && y <= 127 {
            Some(Pos { x: x as i8, y: y as i8 })
        } else {
            None
        }
    }

    /// Translates this position by an offset.
    pub fn add_offset(self, rhs: Offset) -> (r: Pos)
        requires
            i8::MIN <= self.x + rhs.dx <= i8::MAX,
            i8::MIN <= self.y + rhs.dy <= i8::MAX,
        ensures
            r.x == self.x + rhs.dx,
            r.y == self.y + rhs.dy,
    {
        Pos { x: self.x + rhs.dx, y: self.y + rhs.dy }
    }
}

impl Default for Pos {
    fn default() -> (r: Pos)
        ensures
            r == (Pos { x: 0 as i8, y: 0 as i8 }),
    {
        Pos { x: 0, y: 0 }
    }
}

impl Offset {
    pub fn new(dx: i8, dy: i8) -> (r: Offset)
        ensures
            r == (Offset { dx, dy }),
    {
        Offset { dx, dy }
    }

    /// One step toward the left edge.
    pub fn left() -> (r: Offset)
        ensures
            r == (Offset { dx: -1 as i8, dy: 0 as i8 }),
    {
        Offset { dx: -1, dy: 0 }
    }

    /// One step toward the right edge.
    pub fn right() -> (r: Offset)
        ensures
            r == (Offset { dx: 1 as i8, dy: 0 as i8 }),
    {
        Offset { dx: 1, dy: 0 }
    }

    /// One step toward the floor.
    pub fn down() -> (r: Offset)
        ensures
            r == (Offset { dx: 0 as i8, dy: -1 as i8 }),
    {
        Offset { dx: 0, dy: -1 }
    }

    /// Componentwise difference of two offsets.
    pub fn sub_offset(self, rhs: Offset) -> (r: Offset)
        requires
            i8::MIN <= self.dx - rhs.dx <= i8::MAX,
            i8::MIN <= self.dy - rhs.dy <= i8::MAX,
        ensures
            r.dx == self.dx - rhs.dx,
            r.dy == self.dy - rhs.dy,
    {
        Offset { dx: self.dx - rhs.dx, dy: self.dy - rhs.dy }
    }

    /// Componentwise negation.
    pub fn neg_offset(self) -> (r: Offset)
        requires
            self.dx != i8::MIN,
            self.dy != i8::MIN,
        ensures
            r.dx == -self.dx,
            r.dy == -self.dy,
    {
        Offset { dx: -self.dx, dy: -self.dy }
    }
}

impl Default for Offset {
    fn default() -> (r: Offset)
        ensures
            r == (Offset { dx: 0 as i8, dy: 0 as i8 }),
    {
        Offset { dx: 0, dy: 0 }
    }
}

} // verus!
