use vstd::prelude::*;

use crate::pos::Offset;
use crate::pos::Pos;
use crate::rotation::Rot;

verus! {

/// One of the seven tetromino shapes.
#[derive(Debug, Copy, Clone, PartialEq, Eq, Structural, Hash)]
pub enum Tetromino {
    I,
    J,
    L,
    O,
    S,
    T,
    Z,
}

impl Tetromino {
    /// The seven kinds, in catalog order.
    pub open spec fn all_kinds() -> Seq<Tetromino> {
        seq![
            Tetromino::I,
            Tetromino::J,
            Tetromino::L,
            Tetromino::O,
            Tetromino::S,
            Tetromino::T,
            Tetromino::Z,
        ]
    }

    /// Relative block coordinates of this kind in the `Init` rotation.
    pub open spec fn shape(self) -> Seq<(int, int)> {
        match self {
            Tetromino::I => seq![(-1, 0), (0, 0), (1, 0), (2, 0)],
            Tetromino::J => seq![(-1, 1), (-1, 0), (0, 0), (1, 0)],
            Tetromino::L => seq![(-1, 0), (0, 0), (1, 0), (1, 1)],
            Tetromino::O => seq![(0, 0), (1, 0), (1, 1), (0, 1)],
            Tetromino::S => seq![(-1, 0), (0, 0), (0, 1), (1, 1)],
            Tetromino::T => seq![(-1, 0), (0, 0), (0, 1), (1, 0)],
            Tetromino::Z => seq![(-1, 1), (0, 1), (0, 0), (1, 0)],
        }
    }

    /// Per-rotation offset table from the standard rotation system; kick
    /// candidates are differences of two of these tables.
    pub open spec fn srs_offsets(self, rot: Rot) -> Seq<(int, int)> {
        match self {
            Tetromino::J | Tetromino::L | Tetromino::S | Tetromino::T | Tetromino::Z => match rot {
                Rot::Init => seq![(0, 0), (0, 0), (0, 0), (0, 0), (0, 0)],
                Rot::Cw => seq![(0, 0), (1, 0), (1, -1), (0, 2), (1, 2)],
                Rot::Double => seq![(0, 0), (0, 0), (0, 0), (0, 0), (0, 0)],
                Rot::Ccw => seq![(0, 0), (-1, 0), (-1, -1), (0, 2), (-1, 2)],
            },
            Tetromino::I => match rot {
                Rot::Init => seq![(0, 0), (-1, 0), (2, 0), (-1, 0), (2, 0)],
                Rot::Cw => seq![(-1, 0), (0, 0), (0, 0), (0, 1), (0, -2)],
                Rot::Double => seq![(-1, 1), (1, 1), (-2, 1), (1, 0), (-2, 0)],
                Rot::Ccw => seq![(0, 1), (0, 1), (0, 1), (0, -1), (0, 2)],
            },
            Tetromino::O => match rot {
                Rot::Init => seq![(0, 0), (0, 0), (0, 0), (0, 0), (0, 0)],
                Rot::Cw => seq![(0, -1), (0, -1), (0, -1), (0, -1), (0, -1)],
                Rot::Double => seq![(-1, -1), (-1, -1), (-1, -1), (-1, -1), (-1, -1)],
                Rot::Ccw => seq![(-1, 0), (-1, 0), (-1, 0), (-1, 0), (-1, 0)],
            },
        }
    }

    /// Absolute coordinates of block `i` of this kind, rotated by `rot` and
    /// anchored at `(px, py)`.
    pub open spec fn block_at(self, rot: Rot, px: int, py: int, i: int) -> (int, int) {
        let dx = self.shape()[i].0;
        let dy = self.shape()[i].1;
        (px + rot.apply_dx(dx, dy), py + rot.apply_dy(dx, dy))
    }

    /// Kick candidate `i` for a rotation from `r0` to `r1`.
    pub open spec fn kick_at(self, r0: Rot, r1: Rot, i: int) -> (int, int) {
        (
            self.srs_offsets(r0)[i].0 - self.srs_offsets(r1)[i].0,
            self.srs_offsets(r0)[i].1 - self.srs_offsets(r1)[i].1,
        )
    }

    /// Relative coordinates for the blocks of this kind in the `Init`
    /// rotation.
    pub fn coordinates(self) -> (r: [Offset; 4])
        ensures
            forall|i: int|
                0 <= i < 4 ==> (#[trigger] r[i]).dx == self.shape()[i].0 && r[i].dy
                    == self.shape()[i].1,
    {
        match self {
            Tetromino::I => [
                Offset { dx: -1, dy: 0 },
                Offset { dx: 0, dy: 0 },
                Offset { dx: 1, dy: 0 },
                Offset { dx: 2, dy: 0 },
            ],
            Tetromino::J => [
                Offset { dx: -1, dy: 1 },
                Offset { dx: -1, dy: 0 },
                Offset { dx: 0, dy: 0 },
                Offset { dx: 1, dy: 0 },
            ],
            Tetromino::L => [
                Offset { dx: -1, dy: 0 },
                Offset { dx: 0, dy: 0 },
                Offset { dx: 1, dy: 0 },
                Offset { dx: 1, dy: 1 },
            ],
            Tetromino::O => [
                Offset { dx: 0, dy: 0 },
                Offset { dx: 1, dy: 0 },
                Offset { dx: 1, dy: 1 },
                Offset { dx: 0, dy: 1 },
            ],
            Tetromino::S => [
                Offset { dx: -1, dy: 0 },
                Offset { dx: 0, dy: 0 },
                Offset { dx: 0, dy: 1 },
                Offset { dx: 1, dy: 1 },
            ],
            Tetromino::T => [
                Offset { dx: -1, dy: 0 },
                Offset { dx: 0, dy: 0 },
                Offset { dx: 0, dy: 1 },
                Offset { dx: 1, dy: 0 },
            ],
            Tetromino::Z => [
                Offset { dx: -1, dy: 1 },
                Offset { dx: 0, dy: 1 },
                Offset { dx: 0, dy: 0 },
                Offset { dx: 1, dy: 0 },
            ],
        }
    }

    /// Absolute coordinates of the four blocks of this kind at an anchor
    /// position.
    pub fn coordinates_at(self, rot: Rot, pos: Pos) -> (r: [Pos; 4])
        requires
            i8::MIN + 2 <= pos.x <= i8::MAX - 2,
            i8::MIN + 2 <= pos.y <= i8::MAX - 2,
        ensures
            forall|i: int|
                0 <= i < 4 ==> ((#[trigger] r[i]).x as int, r[i].y as int) == self.block_at(
                    rot,
                    pos.x as int,
                    pos.y as int,
                    i,
                ),
    {
        let c = self.coordinates();
        [
            pos.add_offset(rot.apply(c[0])),
            pos.add_offset(rot.apply(c[1])),
            pos.add_offset(rot.apply(c[2])),
            pos.add_offset(rot.apply(c[3])),
        ]
    }

    /// SRS offset table row for this kind at a rotation state.
    fn offsets(self, rot: Rot) -> (r: [Offset; 5])
        ensures
            forall|i: int|
                0 <= i < 5 ==> (#[trigger] r[i]).dx == self.srs_offsets(rot)[i].0 && r[i].dy
                    == self.srs_offsets(rot)[i].1,
    {
        match self {
            Tetromino::J | Tetromino::L | Tetromino::S | Tetromino::T | Tetromino::Z => match rot {
                Rot::Init => [Offset { dx: 0, dy: 0 }; 5],
                Rot::Cw => [
                    Offset { dx: 0, dy: 0 },
                    Offset { dx: 1, dy: 0 },
                    Offset { dx: 1, dy: -1 },
                    Offset { dx: 0, dy: 2 },
                    Offset { dx: 1, dy: 2 },
                ],
                Rot::Double => [Offset { dx: 0, dy: 0 }; 5],
                Rot::Ccw => [
                    Offset { dx: 0, dy: 0 },
                    Offset { dx: -1, dy: 0 },
                    Offset { dx: -1, dy: -1 },
                    Offset { dx: 0, dy: 2 },
                    Offset { dx: -1, dy: 2 },
                ],
            },
            Tetromino::I => match rot {
                Rot::Init => [
                    Offset { dx: 0, dy: 0 },
                    Offset { dx: -1, dy: 0 },
                    Offset { dx: 2, dy: 0 },
                    Offset { dx: -1, dy: 0 },
                    Offset { dx: 2, dy: 0 },
                ],
                Rot::Cw => [
                    Offset { dx: -1, dy: 0 },
                    Offset { dx: 0, dy: 0 },
                    Offset { dx: 0, dy: 0 },
                    Offset { dx: 0, dy: 1 },
                    Offset { dx: 0, dy: -2 },
                ],
                Rot::Double => [
                    Offset { dx: -1, dy: 1 },
                    Offset { dx: 1, dy: 1 },
                    Offset { dx: -2, dy: 1 },
                    Offset { dx: 1, dy: 0 },
                    Offset { dx: -2, dy: 0 },
                ],
                Rot::Ccw => [
                    Offset { dx: 0, dy: 1 },
                    Offset { dx: 0, dy: 1 },
                    Offset { dx: 0, dy: 1 },
                    Offset { dx: 0, dy: -1 },
                    Offset { dx: 0, dy: 2 },
                ],
            },
            Tetromino::O => match rot {
                Rot::Init => [Offset { dx: 0, dy: 0 }; 5],
                Rot::Cw => [Offset { dx: 0, dy: -1 }; 5],
                Rot::Double => [Offset { dx: -1, dy: -1 }; 5],
                Rot::Ccw => [Offset { dx: -1, dy: 0 }; 5],
            },
        }
    }

    /// The five translations to try, in order, when rotating this kind from
    /// `initial_rotation` to `final_rotation`. The first translation that
    /// yields a legal placement is used; if none does, the rotation fails.
    pub fn kick_translations(self, initial_rotation: Rot, final_rotation: Rot) -> (r: [Offset; 5])
        ensures
            forall|i: int|
                0 <= i < 5 ==> ((#[trigger] r[i]).dx as int, r[i].dy as int) == self.kick_at(
                    initial_rotation,
                    final_rotation,
                    i,
                ),
    {
        let a = self.offsets(initial_rotation);
        let b = self.offsets(final_rotation);
        [
            a[0].sub_offset(b[0]),
            a[1].sub_offset(b[1]),
            a[2].sub_offset(b[2]),
            a[3].sub_offset(b[3]),
            a[4].sub_offset(b[4]),
        ]
    }
}

/// The four blocks of a piece are pairwise distinct, for every kind,
/// rotation state, and anchor position.
pub proof fn lemma_piece_blocks_distinct(k: Tetromino, rot: Rot, px: int, py: int)
    ensures
        forall|i: int, j: int|
            0 <= i < j < 4 ==> #[trigger] k.block_at(rot, px, py, i) != #[trigger] k.block_at(
                rot,
                px,
                py,
                j,
            ),
{
}

} // verus!
