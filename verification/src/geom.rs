use vstd::prelude::*;

use crate::puzzle::Facet;

verus! {

/// One of the four axes of the puzzle's 4-dimensional space.
#[derive(Debug, Copy, Clone, PartialEq, Eq, Structural, Hash)]
pub enum Axis {
    X,
    Y,
    Z,
    W,
}

impl Axis {
    /// Numeric identifier of this axis.
    pub open spec fn id_spec(self) -> int {
        match self {
            Axis::X => 0,
            Axis::Y => 1,
            Axis::Z => 2,
            Axis::W => 3,
        }
    }

    /// The axis with identifier `i`, for `0 <= i < 4`.
    pub open spec fn from_id_spec(i: int) -> Axis {
        if i == 0 {
            Axis::X
        } else if i == 1 {
            Axis::Y
        } else if i == 2 {
            Axis::Z
        } else {
            Axis::W
        }
    }

    pub fn id(self) -> (r: u8)
        ensures
            r == self.id_spec(),
    {
        match self {
            Axis::X => 0,
            Axis::Y => 1,
            Axis::Z => 2,
            Axis::W => 3,
        }
    }

    pub fn from_id(id: u8) -> (r: Axis)
        requires
            id < 4,
        ensures
            r == Axis::from_id_spec(id as int),
    {
        if id == 0 {
            Axis::X
        } else if id == 1 {
            Axis::Y
        } else if id == 2 {
            Axis::Z
        } else {
            Axis::W
        }
    }
}

/// Direction along an axis.
#[derive(Debug, Copy, Clone, PartialEq, Eq, Structural, Hash)]
pub enum Sign {
    Pos,
    Neg,
}

impl Sign {
    /// Numeric identifier: positive is 0, negative is 1.
    pub open spec fn id_spec(self) -> int {
        match self {
            Sign::Pos => 0,
            Sign::Neg => 1,
        }
    }

    /// This sign as the integer 1 or -1.
    pub open spec fn to_int(self) -> int {
        match self {
            Sign::Pos => 1,
            Sign::Neg => -1,
        }
    }

    pub fn id(self) -> (r: u8)
        ensures
            r == self.id_spec(),
    {
        match self {
            Sign::Pos => 0,
            Sign::Neg => 1,
        }
    }

    pub fn from_id(id: u8) -> (r: Sign)
        ensures
            r == if id == 0 {
                Sign::Pos
            } else {
                Sign::Neg
            },
    {
        if id == 0 {
            Sign::Pos
        } else {
            Sign::Neg
        }
    }

    pub fn to_i8(self) -> (r: i8)
        ensures
            r == self.to_int(),
    {
        match self {
            Sign::Pos => 1,
            Sign::Neg => -1,
        }
    }

    /// The sign of a nonzero coordinate; zero has no sign.
    pub fn try_from_i8(coordinate: i8) -> (r: Option<Sign>)
        ensures
            r == if coordinate < 0 {
                Some(Sign::Neg)
            } else if coordinate == 0 {
                None::<Sign>
            } else {
                Some(Sign::Pos)
            },
    {
        if coordinate < 0 {
            Some(Sign::Neg)
        } else if coordinate == 0 {
            None
        } else {
            Some(Sign::Pos)
        }
    }

    /// The opposite direction.
    pub fn negate(self) -> (r: Sign)
        ensures
            r.to_int() == -self.to_int(),
    {
        match self {
            Sign::Pos => Sign::Neg,
            Sign::Neg => Sign::Pos,
        }
    }

    /// The product of two signs.
    pub fn times(self, other: Sign) -> (r: Sign)
        ensures
            r.to_int() == self.to_int() * other.to_int(),
    {
        match (self, other) {
            (Sign::Pos, s) => s,
            (Sign::Neg, Sign::Pos) => Sign::Neg,
            (Sign::Neg, Sign::Neg) => Sign::Pos,
        }
    }
}

/// Integer position in 4-dimensional space.
#[derive(Debug, Copy, Clone, PartialEq, Eq, Hash)]
pub struct Pos4(pub [i8; 4]);

impl Pos4 {
    /// Coordinate along axis `i`.
    pub open spec fn coord(self, i: int) -> int {
        self.0[i] as int
    }

    /// The origin.
    pub fn origin() -> (r: Pos4)
        ensures
            forall|i: int| 0 <= i < 4 ==> #[trigger] r.coord(i) == 0,
    {
        Pos4([0, 0, 0, 0])
    }

    /// Coordinate along `axis`.
    pub fn get(self, axis: Axis) -> (r: i8)
        ensures
            r == self.coord(axis.id_spec()),
    {
        self.0[axis.id() as usize]
    }

    /// This position with the coordinate along `axis` replaced.
    pub fn with_coord(self, axis: Axis, value: i8) -> (r: Pos4)
        ensures
            r.coord(axis.id_spec()) == value,
            forall|i: int| 0 <= i < 4 && i != axis.id_spec() ==> #[trigger] r.coord(i)
                == self.coord(i),
    {
        let c = self.0;
        match axis {
            Axis::X => Pos4([value, c[1], c[2], c[3]]),
            Axis::Y => Pos4([c[0], value, c[2], c[3]]),
            Axis::Z => Pos4([c[0], c[1], value, c[3]]),
            Axis::W => Pos4([c[0], c[1], c[2], value]),
        }
    }

    /// Result of rotating this position in the plane spanned by the axes of
    /// `from` and `to`, carrying `from`'s direction onto `to`'s. The
    /// coordinate of `from`'s axis moves to `to`'s axis, negated when the
    /// two facets point in different directions; the coordinate of `to`'s
    /// axis moves back to `from`'s axis with the opposite sign treatment.
    pub open spec fn rot_spec(self, from: Facet, to: Facet) -> Pos4 {
        let flip = from.sign != to.sign;
        let fa = from.axis.id_spec();
        let ta = to.axis.id_spec();
        Pos4(
            [
                Self::rot_coord_spec(self, flip, fa, ta, 0),
                Self::rot_coord_spec(self, flip, fa, ta, 1),
                Self::rot_coord_spec(self, flip, fa, ta, 2),
                Self::rot_coord_spec(self, flip, fa, ta, 3),
            ],
        )
    }

    /// Coordinate `i` of a rotated position.
    pub open spec fn rot_coord_spec(p: Pos4, flip: bool, fa: int, ta: int, i: int) -> i8 {
        (if i == ta {
            if flip {
                -p.coord(fa)
            } else {
                p.coord(fa)
            }
        } else if i == fa {
            if flip {
                p.coord(ta)
            } else {
                -p.coord(ta)
            }
        } else {
            p.coord(i)
        }) as i8
    }

    /// Rotates a position from `from` to `to`.
    ///
    /// Returns `None` if `from` and `to` are on the same axis.
    #[must_use]
    pub fn rot(self, from: Facet, to: Facet) -> (r: Option<Pos4>)
        requires
            forall|i: int| 0 <= i < 4 ==> i8::MIN < #[trigger] self.coord(i),
        ensures
            r is Some <==> from.axis != to.axis,
            r matches Some(p) ==> p == self.rot_spec(from, to),
    {
        if from.axis == to.axis {
            return None;
        }
        let flip = !matches!((from.sign, to.sign), (Sign::Pos, Sign::Pos) | (Sign::Neg, Sign::Neg));
        let a = self.get(from.axis);
        let b = self.get(to.axis);
        let ra = if flip {
            -a
        } else {
            a
        };
        let rb = if flip {
            b
        } else {
            -b
        };
        let ret = self.with_coord(to.axis, ra).with_coord(from.axis, rb);
        proof {
            let sp = self.rot_spec(from, to);
            assert forall|i: int| 0 <= i < 4 implies ret.0[i] == sp.0[i] by {
                assert(ret.coord(i) == sp.coord(i));
            }
            assert(ret.0 =~= sp.0);
        }
        Some(ret)
    }

    /// Projection of a 4-dimensional position onto the flat display grid.
    pub fn display_pos(self) -> (r: [i8; 2])
        requires
            forall|i: int| 0 <= i < 4 ==> -2 <= #[trigger] self.coord(i) <= 2,
        ensures
            r[0] == self.coord(0) + self.coord(2) * 6,
            r[1] == self.coord(1) + self.coord(3) * 6,
    {
        proof {
            assert(-2 <= self.coord(0) <= 2);
            assert(-2 <= self.coord(1) <= 2);
            assert(-2 <= self.coord(2) <= 2);
            assert(-2 <= self.coord(3) <= 2);
        }
        let x = self.0[0];
        let y = self.0[1];
        let z = self.0[2];
        let w = self.0[3];
        [x + z * 6, y + w * 6]
    }
}

impl Default for Pos4 {
    fn default() -> (r: Pos4)
        ensures
            forall|i: int| 0 <= i < 4 ==> #[trigger] r.coord(i) == 0,
    {
        Pos4([0, 0, 0, 0])
    }
}

} // verus!
