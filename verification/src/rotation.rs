use vstd::prelude::*;

use crate::pos::Offset;

verus! {

/// Rotation state of a falling piece.
///
/// The four states form a cyclic group under "rotate 90 degrees clockwise":
/// rotating clockwise from a state with index `i` reaches the state with
/// index `(i + 1) % 4`.
#[derive(Debug, Copy, Clone, PartialEq, Eq, Structural, Hash)]
pub enum Rot {
    /// Initial state.
    Init,
    /// Rotated 90 degrees clockwise.
    Cw,
    /// Rotated 180 degrees.
    Double,
    /// Rotated 90 degrees counterclockwise.
    Ccw,
}

impl Rot {
    /// Index of this state in the cyclic order `Init, Cw, Double, Ccw`.
    pub open spec fn index_spec(self) -> int {
        match self {
            Rot::Init => 0,
            Rot::Cw => 1,
            Rot::Double => 2,
            Rot::Ccw => 3,
        }
    }

    /// The state whose index is `i % 4`.
    pub open spec fn from_index_spec(i: int) -> Rot {
        if i % 4 == 0 {
            Rot::Init
        } else if i % 4 == 1 {
            Rot::Cw
        } else if i % 4 == 2 {
            Rot::Double
        } else {
            Rot::Ccw
        }
    }

    /// State reached by turning 90 degrees clockwise.
    pub open spec fn rot_cw_spec(self) -> Rot {
        Self::from_index_spec(self.index_spec() + 1)
    }

    /// State reached by turning 180 degrees.
    pub open spec fn rot_180_spec(self) -> Rot {
        Self::from_index_spec(self.index_spec() + 2)
    }

    /// State reached by turning 90 degrees counterclockwise.
    pub open spec fn rot_ccw_spec(self) -> Rot {
        Self::from_index_spec(self.index_spec() + 3)
    }

    /// x component of this rotation applied to the offset `(dx, dy)`.
    pub open spec fn apply_dx(self, dx: int, dy: int) -> int {
        match self {
            Rot::Init => dx,
            Rot::Cw => dy,
            Rot::Double => -dx,
            Rot::Ccw => -dy,
        }
    }

    /// y component of this rotation applied to the offset `(dx, dy)`.
    pub open spec fn apply_dy(self, dx: int, dy: int) -> int {
        match self {
            Rot::Init => dy,
            Rot::Cw => -dx,
            Rot::Double => -dy,
            Rot::Ccw => dx,
        }
    }

    pub fn index(self) -> (r: usize)
        ensures
            r == self.index_spec(),
    {
        match self {
            Rot::Init => 0,
            Rot::Cw => 1,
            Rot::Double => 2,
            Rot::Ccw => 3,
        }
    }

    pub fn from_index(index: usize) -> (r: Rot)
        ensures
            r == Self::from_index_spec(index as int),
    {
        let i = index % 4;
        if i == 0 {
            Rot::Init
        } else if i == 1 {
            Rot::Cw
        } else if i == 2 {
            Rot::Double
        } else {
            Rot::Ccw
        }
    }

    #[must_use]
    pub fn rot_cw(self) -> (r: Rot)
        ensures
            r == self.rot_cw_spec(),
    {
        Self::from_index(self.index() + 1)
    }

    #[must_use]
    pub fn rot_180(self) -> (r: Rot)
        ensures
            r == self.rot_180_spec(),
    {
        Self::from_index(self.index() + 2)
    }

    #[must_use]
    pub fn rot_ccw(self) -> (r: Rot)
        ensures
            r == self.rot_ccw_spec(),
    {
        Self::from_index(self.index() + 3)
    }

    /// Rotates an offset by a multiple of 90 degrees.
    pub fn apply(self, offset: Offset) -> (r: Offset)
        requires
            (self is Cw || self is Double) ==> offset.dx != i8::MIN,
            (self is Ccw || self is Double) ==> offset.dy != i8::MIN,
        ensures
            r.dx == self.apply_dx(offset.dx as int, offset.dy as int),
            r.dy == self.apply_dy(offset.dx as int, offset.dy as int),
    {
        match self {
            Rot::Init => offset,
            Rot::Cw => Offset { dx: offset.dy, dy: -offset.dx },
            Rot::Double => Offset { dx: -offset.dx, dy: -offset.dy },
            Rot::Ccw => Offset { dx: -offset.dy, dy: offset.dx },
        }
    }
}

impl Default for Rot {
    fn default() -> (r: Rot)
        ensures
            r == Rot::Init,
    {
        Rot::Init
    }
}

/// The rotation states form a cyclic group of order 4: four clockwise turns
/// are the identity, two clockwise turns equal a half turn, and a
/// counterclockwise turn inverts a clockwise turn in either order.
pub proof fn lemma_rotation_group(r: Rot)
    ensures
        r.rot_cw_spec().rot_cw_spec().rot_cw_spec().rot_cw_spec() == r,
        r.rot_cw_spec().rot_cw_spec() == r.rot_180_spec(),
        r.rot_cw_spec().rot_ccw_spec() == r,
        r.rot_ccw_spec().rot_cw_spec() == r,
{
}

} // verus!
